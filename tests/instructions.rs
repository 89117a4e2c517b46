use gbcore::bus::Bus;
use gbcore::cpu::Cpu;
use gbcore::fault::Fault;
use gbcore::operand::Stage;
use gbcore::reg::{RegId16, RegId8};

fn machine(program: &[u8]) -> (Cpu, Bus) {
    let mut rom = [0u8; 256];
    rom[..program.len()].copy_from_slice(program);
    (Cpu::new(), Bus::new(&rom))
}

fn run(cpu: &mut Cpu, bus: &mut Bus, cycles: usize) {
    for _ in 0..cycles {
        cpu.cycle(bus).unwrap();
    }
}

#[test]
fn ld_bc_n16_takes_three_cycles() {
    let (mut cpu, mut bus) = machine(&[0x01, 0x34, 0x12]);
    run(&mut cpu, &mut bus, 2);
    assert_eq!(cpu.get16(RegId16::BC), 0);
    run(&mut cpu, &mut bus, 1);
    assert_eq!(cpu.get16(RegId16::BC), 0x1234);
    assert_eq!(cpu.get16(RegId16::PC), 3);
    assert_eq!(cpu.stage(), Stage::Fetch);
}

#[test]
fn xor_a_a_clears_a_in_one_cycle() {
    let (mut cpu, mut bus) = machine(&[0xAF]);
    cpu.set8(RegId8::A, 0x5A);
    cpu.set8(RegId8::F, 0x70);
    run(&mut cpu, &mut bus, 1);
    assert_eq!(cpu.get8(RegId8::A), 0x00);
    assert_eq!(cpu.get8(RegId8::F), 0x80);
    assert_eq!(cpu.get16(RegId16::PC), 1);
    assert_eq!(cpu.stage(), Stage::Fetch);
}

#[test]
fn xor_a_b_nonzero_clears_flags() {
    let (mut cpu, mut bus) = machine(&[0xA8]);
    cpu.set8(RegId8::A, 0xF0);
    cpu.set8(RegId8::B, 0x0F);
    cpu.set8(RegId8::F, 0xF0);
    run(&mut cpu, &mut bus, 1);
    assert_eq!(cpu.get8(RegId8::A), 0xFF);
    assert_eq!(cpu.get8(RegId8::F), 0x00);
}

#[test]
fn xor_a_hl_reads_memory() {
    let (mut cpu, mut bus) = machine(&[0xAE]);
    bus.write(0xC010, 0x3C).unwrap();
    cpu.set16(RegId16::HL, 0xC010);
    cpu.set8(RegId8::A, 0x3C);
    run(&mut cpu, &mut bus, 1);
    assert_eq!(cpu.get16(RegId16::PC), 0);
    run(&mut cpu, &mut bus, 1);
    assert_eq!(cpu.get8(RegId8::A), 0);
    assert_eq!(cpu.get8(RegId8::F), 0x80);
    assert_eq!(cpu.get16(RegId16::PC), 1);
}

#[test]
fn ld_hl_plus_a_writes_and_increments() {
    let (mut cpu, mut bus) = machine(&[0x22]);
    cpu.set16(RegId16::HL, 0xC000);
    cpu.set8(RegId8::A, 0x42);
    run(&mut cpu, &mut bus, 1);
    assert_eq!(bus.read(0xC000), Ok(0x00));
    run(&mut cpu, &mut bus, 1);
    assert_eq!(bus.read(0xC000), Ok(0x42));
    assert_eq!(cpu.get16(RegId16::HL), 0xC001);
    assert_eq!(cpu.get16(RegId16::PC), 1);
    assert_eq!(cpu.stage(), Stage::Fetch);
}

#[test]
fn ld_hl_minus_a_decrements() {
    let (mut cpu, mut bus) = machine(&[0x32]);
    cpu.set16(RegId16::HL, 0xC100);
    cpu.set8(RegId8::A, 0x99);
    run(&mut cpu, &mut bus, 2);
    assert_eq!(bus.read(0xC100), Ok(0x99));
    assert_eq!(cpu.get16(RegId16::HL), 0xC0FF);
}

#[test]
fn ld_a_from_de() {
    let (mut cpu, mut bus) = machine(&[0x1A]);
    bus.write(0xC200, 0x77).unwrap();
    cpu.set16(RegId16::DE, 0xC200);
    run(&mut cpu, &mut bus, 2);
    assert_eq!(cpu.get8(RegId8::A), 0x77);
    assert_eq!(cpu.get16(RegId16::PC), 1);
}

#[test]
fn ld_a_from_hl_minus() {
    let (mut cpu, mut bus) = machine(&[0x3A]);
    bus.write(0xC000, 0x5E).unwrap();
    cpu.set16(RegId16::HL, 0xC000);
    run(&mut cpu, &mut bus, 2);
    assert_eq!(cpu.get8(RegId8::A), 0x5E);
    assert_eq!(cpu.get16(RegId16::HL), 0xBFFF);
}

#[test]
fn jr_z_not_taken_when_z_clear() {
    let (mut cpu, mut bus) = machine(&[0x28, 0x05]);
    cpu.set8(RegId8::F, 0x00);
    run(&mut cpu, &mut bus, 2);
    assert_eq!(cpu.get16(RegId16::PC), 2);
    assert_eq!(cpu.stage(), Stage::Fetch);
}

#[test]
fn jr_z_taken_when_z_set() {
    let (mut cpu, mut bus) = machine(&[0x28, 0x05]);
    cpu.set8(RegId8::F, 0x80);
    run(&mut cpu, &mut bus, 2);
    assert_eq!(cpu.get16(RegId16::PC), 7);
    assert_ne!(cpu.stage(), Stage::Fetch);
    run(&mut cpu, &mut bus, 1);
    assert_eq!(cpu.get16(RegId16::PC), 7);
    assert_eq!(cpu.stage(), Stage::Fetch);
}

#[test]
fn jr_nz_branches_backwards_when_z_clear() {
    let (mut cpu, mut bus) = machine(&[0x00, 0x00, 0x00, 0x20, 0xFB]);
    cpu.set16(RegId16::PC, 3);
    run(&mut cpu, &mut bus, 3);
    assert_eq!(cpu.get16(RegId16::PC), 0);
}

#[test]
fn jr_nz_falls_through_when_z_set() {
    let (mut cpu, mut bus) = machine(&[0x20, 0xFB]);
    cpu.set8(RegId8::F, 0x80);
    run(&mut cpu, &mut bus, 2);
    assert_eq!(cpu.get16(RegId16::PC), 2);
}

#[test]
fn ld_r8_r8_copies_in_one_cycle() {
    // LD D, E
    let (mut cpu, mut bus) = machine(&[0x53]);
    cpu.set8(RegId8::E, 0xAB);
    run(&mut cpu, &mut bus, 1);
    assert_eq!(cpu.get8(RegId8::D), 0xAB);
    assert_eq!(cpu.get16(RegId16::PC), 1);
}

#[test]
fn ld_hl_mem_from_register_writes_memory() {
    // LD [HL], B
    let (mut cpu, mut bus) = machine(&[0x70]);
    cpu.set16(RegId16::HL, 0xC123);
    cpu.set8(RegId8::B, 0x66);
    run(&mut cpu, &mut bus, 2);
    assert_eq!(bus.read(0xC123), Ok(0x66));
    assert_eq!(cpu.get16(RegId16::PC), 1);
}

#[test]
fn ldh_imm_a_writes_high_page() {
    let (mut cpu, mut bus) = machine(&[0xE0, 0x80]);
    cpu.set8(RegId8::A, 0x12);
    run(&mut cpu, &mut bus, 3);
    assert_eq!(bus.read(0xFF80), Ok(0x12));
    assert_eq!(cpu.get16(RegId16::PC), 2);
}

#[test]
fn ldh_c_a_writes_high_page() {
    let (mut cpu, mut bus) = machine(&[0xE2]);
    cpu.set8(RegId8::A, 0x34);
    cpu.set8(RegId8::C, 0x85);
    run(&mut cpu, &mut bus, 2);
    assert_eq!(bus.read(0xFF85), Ok(0x34));
    assert_eq!(cpu.get16(RegId16::PC), 1);
}

#[test]
fn ld_r8_n8_loads_immediate() {
    // LD C, 0x3F
    let (mut cpu, mut bus) = machine(&[0x0E, 0x3F]);
    run(&mut cpu, &mut bus, 2);
    assert_eq!(cpu.get8(RegId8::C), 0x3F);
    assert_eq!(cpu.get16(RegId16::PC), 2);
}

#[test]
fn ld_hl_mem_n8_takes_three_cycles() {
    let (mut cpu, mut bus) = machine(&[0x36, 0x9A]);
    cpu.set16(RegId16::HL, 0xC050);
    run(&mut cpu, &mut bus, 2);
    assert_eq!(bus.read(0xC050), Ok(0x00));
    run(&mut cpu, &mut bus, 1);
    assert_eq!(bus.read(0xC050), Ok(0x9A));
    assert_eq!(cpu.get16(RegId16::PC), 2);
}

#[test]
fn inc_r8_wraps() {
    // INC B
    let (mut cpu, mut bus) = machine(&[0x04]);
    cpu.set8(RegId8::B, 0xFF);
    run(&mut cpu, &mut bus, 1);
    assert_eq!(cpu.get8(RegId8::B), 0x00);
    assert_eq!(cpu.get16(RegId16::PC), 1);
}

#[test]
fn inc_hl_mem_takes_three_cycles() {
    let (mut cpu, mut bus) = machine(&[0x34]);
    bus.write(0xC000, 0x41).unwrap();
    cpu.set16(RegId16::HL, 0xC000);
    run(&mut cpu, &mut bus, 3);
    assert_eq!(bus.read(0xC000), Ok(0x42));
    assert_eq!(cpu.stage(), Stage::Fetch);
}

#[test]
fn inc_r16_takes_two_cycles() {
    let (mut cpu, mut bus) = machine(&[0x03]);
    cpu.set16(RegId16::BC, 0xFFFF);
    run(&mut cpu, &mut bus, 1);
    assert_eq!(cpu.get16(RegId16::BC), 0x0000);
    assert_ne!(cpu.stage(), Stage::Fetch);
    run(&mut cpu, &mut bus, 1);
    assert_eq!(cpu.stage(), Stage::Fetch);
    assert_eq!(cpu.get16(RegId16::PC), 1);
}

#[test]
fn inc_sp_leaves_af() {
    let (mut cpu, mut bus) = machine(&[0x33]);
    cpu.set16(RegId16::SP, 0xDFF0);
    cpu.set16(RegId16::AF, 0x1230);
    run(&mut cpu, &mut bus, 2);
    assert_eq!(cpu.get16(RegId16::SP), 0xDFF1);
    assert_eq!(cpu.get16(RegId16::AF), 0x1230);
}

#[test]
fn push_bc_writes_low_byte_first() {
    let (mut cpu, mut bus) = machine(&[0xC5]);
    cpu.set16(RegId16::SP, 0xD000);
    cpu.set16(RegId16::BC, 0x1234);
    run(&mut cpu, &mut bus, 2);
    assert_eq!(bus.read(0xCFFE), Ok(0x34));
    assert_eq!(bus.read(0xCFFF), Ok(0x00));
    run(&mut cpu, &mut bus, 1);
    assert_eq!(bus.read(0xCFFF), Ok(0x12));
    assert_eq!(cpu.get16(RegId16::SP), 0xCFFE);
    assert_eq!(cpu.get16(RegId16::PC), 1);
    assert_eq!(cpu.stage(), Stage::Fetch);
}

#[test]
fn push_af_pushes_flags() {
    let (mut cpu, mut bus) = machine(&[0xF5]);
    cpu.set16(RegId16::SP, 0xD000);
    cpu.set16(RegId16::AF, 0xAB90);
    run(&mut cpu, &mut bus, 3);
    assert_eq!(bus.read(0xCFFE), Ok(0x90));
    assert_eq!(bus.read(0xCFFF), Ok(0xAB));
}

#[test]
fn bit_7_h_sets_zero_when_bit_clear() {
    let (mut cpu, mut bus) = machine(&[0xCB, 0x7C]);
    cpu.set8(RegId8::H, 0x7F);
    cpu.set8(RegId8::F, 0x50);
    run(&mut cpu, &mut bus, 1);
    assert_eq!(cpu.stage(), Stage::FetchPrefixed);
    assert_eq!(cpu.get16(RegId16::PC), 1);
    run(&mut cpu, &mut bus, 1);
    // Z set, N cleared, H set, C kept
    assert_eq!(cpu.get8(RegId8::F), 0xB0);
    assert_eq!(cpu.get16(RegId16::PC), 2);
    assert_eq!(cpu.stage(), Stage::Fetch);
}

#[test]
fn bit_0_hl_clears_zero_when_bit_set() {
    let (mut cpu, mut bus) = machine(&[0xCB, 0x46]);
    bus.write(0xC000, 0x01).unwrap();
    cpu.set16(RegId16::HL, 0xC000);
    cpu.set8(RegId8::F, 0xC0);
    run(&mut cpu, &mut bus, 3);
    assert_eq!(cpu.get8(RegId8::F), 0x20);
    assert_eq!(cpu.get16(RegId16::PC), 2);
}

#[test]
fn unimplemented_opcode_faults_without_change() {
    let (mut cpu, mut bus) = machine(&[0xD3]);
    cpu.set16(RegId16::BC, 0xBEEF);
    cpu.set8(RegId8::A, 0x11);
    let expect = Fault::UnimplementedOpcode { opcode: 0xD3, prefixed: false, pc: 0 };
    assert_eq!(cpu.cycle(&mut bus), Err(expect));
    assert_eq!(cpu.get16(RegId16::PC), 0);
    assert_eq!(cpu.get16(RegId16::BC), 0xBEEF);
    assert_eq!(cpu.get8(RegId8::A), 0x11);
    assert_eq!(cpu.stage(), Stage::Fetch);
    assert_eq!(cpu.cycle(&mut bus), Err(expect));
}

#[test]
fn halt_is_unimplemented() {
    let (mut cpu, mut bus) = machine(&[0x76]);
    assert_eq!(
        cpu.cycle(&mut bus),
        Err(Fault::UnimplementedOpcode { opcode: 0x76, prefixed: false, pc: 0 })
    );
    assert_eq!(cpu.get16(RegId16::PC), 0);
}

#[test]
fn unimplemented_prefixed_opcode_faults() {
    let (mut cpu, mut bus) = machine(&[0xCB, 0x11]);
    assert_eq!(cpu.cycle(&mut bus), Ok(()));
    assert_eq!(
        cpu.cycle(&mut bus),
        Err(Fault::UnimplementedOpcode { opcode: 0x11, prefixed: true, pc: 1 })
    );
    assert_eq!(cpu.get16(RegId16::PC), 1);
    assert_eq!(cpu.stage(), Stage::FetchPrefixed);
}

#[test]
fn fetch_from_unmapped_address_faults() {
    let (mut cpu, mut bus) = machine(&[]);
    cpu.set16(RegId16::PC, 0x0100);
    assert_eq!(cpu.cycle(&mut bus), Err(Fault::UnmappedAddress { addr: 0x0100 }));
    assert_eq!(cpu.get16(RegId16::PC), 0x0100);
}

#[test]
fn write_to_boot_rom_faults_and_retries_alike() {
    // LD [HL], A with HL in the boot ROM
    let (mut cpu, mut bus) = machine(&[0x77]);
    cpu.set16(RegId16::HL, 0x0010);
    assert_eq!(cpu.cycle(&mut bus), Ok(()));
    assert_eq!(cpu.cycle(&mut bus), Err(Fault::UnmappedAddress { addr: 0x0010 }));
    assert_eq!(cpu.cycle(&mut bus), Err(Fault::UnmappedAddress { addr: 0x0010 }));
    assert_eq!(cpu.get16(RegId16::PC), 1);
}

#[test]
fn boot_prologue_runs() {
    // LD SP,0xFFFE; XOR A; LD HL,0x9FFF; LD [HL-],A; BIT 7,H; JR NZ,-5
    let program = [
        0x31, 0xFE, 0xFF, 0xAF, 0x21, 0xFF, 0x9F, 0x32, 0xCB, 0x7C, 0x20, 0xFB,
    ];
    let (mut cpu, mut bus) = machine(&program);
    // 3 + 1 + 3 cycles of set-up
    run(&mut cpu, &mut bus, 7);
    assert_eq!(cpu.get16(RegId16::SP), 0xFFFE);
    assert_eq!(cpu.get16(RegId16::HL), 0x9FFF);
    assert_eq!(cpu.get16(RegId16::PC), 7);
    // one pass of the loop: 2 + 2 + 3 cycles
    run(&mut cpu, &mut bus, 7);
    assert_eq!(cpu.get16(RegId16::HL), 0x9FFE);
    assert_eq!(cpu.get16(RegId16::PC), 7);
    assert_eq!(bus.read(0x9FFF), Ok(0));
}
