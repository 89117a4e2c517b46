use gbcore::bus::Bus;
use gbcore::decode::{decode, Inst};
use gbcore::fault::Fault;
use gbcore::gb::{FRAME_BYTES, GB};
use gbcore::operand::{OpdDst, OpdSrc, ReadVal, Stage};
use gbcore::reg::{RegId16, RegId8};

#[test]
fn decode_table_families() {
    assert_eq!(decode(0x01, false), Some(Inst::LdR16Imm(RegId16::BC)));
    assert_eq!(decode(0x31, false), Some(Inst::LdR16Imm(RegId16::SP)));
    assert_eq!(decode(0x22, false), Some(Inst::LdIndA(2)));
    assert_eq!(decode(0x3A, false), Some(Inst::LdAInd(3)));
    assert_eq!(decode(0xAF, false), Some(Inst::XorA(7)));
    assert_eq!(decode(0x7E, false), Some(Inst::LdR8R8 { dst: 7, src: 6 }));
    assert_eq!(decode(0xE0, false), Some(Inst::LdhImmA));
    assert_eq!(decode(0xE2, false), Some(Inst::LdhCA));
    assert_eq!(decode(0x3E, false), Some(Inst::LdR8Imm(7)));
    assert_eq!(decode(0x0C, false), Some(Inst::IncR8(1)));
    assert_eq!(decode(0x33, false), Some(Inst::IncR16(RegId16::SP)));
    assert_eq!(decode(0x20, false), Some(Inst::Jr { carry: false, when_set: false }));
    assert_eq!(decode(0x28, false), Some(Inst::Jr { carry: false, when_set: true }));
    assert_eq!(decode(0xF5, false), Some(Inst::Push(RegId16::AF)));
    assert_eq!(decode(0x7C, true), Some(Inst::Bit { bit: 7, slot: 4 }));
}

#[test]
fn decode_table_gaps() {
    for op in [0x76u8, 0x05, 0x18, 0x30, 0xC1, 0xC3, 0xCD, 0xD3, 0xFF] {
        assert_eq!(decode(op, false), None, "{:02X}", op);
    }
    for op in [0x00u8, 0x11, 0x3F, 0x80, 0xFF] {
        assert_eq!(decode(op, true), None, "CB {:02X}", op);
    }
    let implemented = (0..=255u8).filter(|op| decode(*op, false).is_some()).count();
    // 4 + 4 + 4 + 8 + 63 + 2 + 8 + 8 + 4 + 4 + 4
    assert_eq!(implemented, 113);
    let prefixed = (0..=255u8).filter(|op| decode(*op, true).is_some()).count();
    assert_eq!(prefixed, 64);
}

#[test]
fn source_descriptor_reads_word_low_byte_first() {
    let mut bus = Bus::new(&[0u8; 256]);
    bus.write(0xC000, 0xCD).unwrap();
    bus.write(0xC001, 0xAB).unwrap();
    let s0 = OpdSrc::Mem16(0xC000);
    assert!(!s0.ready());
    let s1 = s0.read_step(&bus).unwrap();
    assert_eq!(s1, OpdSrc::Mem16Half(0xC000, 0xCD));
    assert!(!s1.ready());
    let s2 = s1.read_step(&bus).unwrap();
    assert_eq!(s2, OpdSrc::Done16(0xABCD));
    assert!(s2.ready());
    assert_eq!(s2.read_step(&bus), Ok(s2));
    assert_eq!(OpdSrc::Mem8(0xC001).read_step(&bus), Ok(OpdSrc::Done8(0xAB)));
    assert_eq!(OpdSrc::Mem8(0xE000).read_step(&bus), Err(Fault::UnmappedAddress { addr: 0xE000 }));
}

#[test]
fn destination_descriptor_writes_word_low_byte_first() {
    let mut bus = Bus::new(&[0u8; 256]);
    let d0 = OpdDst::Mem16(0xC010, 0x1234);
    assert!(!d0.ready());
    let d1 = d0.write_step(&mut bus).unwrap();
    assert_eq!(d1, OpdDst::Mem16Half(0xC010, 0x12));
    assert_eq!(bus.read(0xC010), Ok(0x34));
    assert_eq!(bus.read(0xC011), Ok(0x00));
    let d2 = d1.write_step(&mut bus).unwrap();
    assert_eq!(d2, OpdDst::Done);
    assert!(d2.ready());
    assert_eq!(bus.read(0xC011), Ok(0x12));
    assert_eq!(d2.write_step(&mut bus), Ok(OpdDst::Done));
    assert_eq!(OpdDst::Mem8(0xC020, 9).write_step(&mut bus), Ok(OpdDst::Done));
    assert_eq!(bus.read(0xC020), Ok(9));
    assert_eq!(
        OpdDst::Mem8(0x0000, 9).write_step(&mut bus),
        Err(Fault::UnmappedAddress { addr: 0 })
    );
}

#[test]
fn high_byte_address_wraps() {
    let mut bus = Bus::new(&[0x77u8; 256]);
    bus.write(0xFFFF, 0x11).unwrap();
    let s = OpdSrc::Mem16Half(0xFFFF, 0x22).read_step(&bus).unwrap();
    assert_eq!(s, OpdSrc::Done16(0x7722));
}

#[test]
fn ready_values() {
    assert_eq!(ReadVal::from_ready(OpdSrc::Done8(7)), ReadVal::Done8(7));
    assert_eq!(ReadVal::from_ready(OpdSrc::Done16(0x1234)).get16(), 0x1234);
    assert_eq!(ReadVal::Done8(0xAB).get8(), 0xAB);
}

#[test]
fn wait_turns_into_write() {
    let w = Stage::Wait(OpdDst::Mem8(0xC000, 1));
    assert_eq!(w.wait(), Stage::Write(OpdDst::Mem8(0xC000, 1)));
}

#[test]
fn machine_runs_and_counts_ticks() {
    let mut rom = [0u8; 256];
    // LD A,0x42; LD [0xFF00+0x90],A; then an unimplemented opcode
    rom[..5].copy_from_slice(&[0x3E, 0x42, 0xE0, 0x90, 0xD3]);
    let mut gb = GB::new(&rom);
    assert_eq!(gb.frame_buffer().len(), FRAME_BYTES);
    assert_eq!(gb.ticks(), 0);
    assert_eq!(gb.cycle(2), Ok(()));
    assert_eq!(gb.cpu().get8(RegId8::A), 0x42);
    assert_eq!(gb.ticks(), 2);
    assert_eq!(gb.cycle(3), Ok(()));
    assert_eq!(gb.bus().read(0xFF90), Ok(0x42));
    assert_eq!(gb.cycle(10), Err(Fault::UnimplementedOpcode { opcode: 0xD3, prefixed: false, pc: 4 }));
    assert_eq!(gb.ticks(), 5);
    assert_eq!(gb.cpu().get16(RegId16::PC), 4);
}

#[test]
fn machine_joypad() {
    let mut gb = GB::new(&[0u8; 256]);
    gb.write_joystate(0xFE);
    assert_eq!(gb.bus().read(0xFF00), Ok(0xCE));
}
