use vstd::prelude::*;
use crate::audio::{is_apu_register, Apu, ApuState};
use crate::fault::Fault;
use crate::graphic::{Ppu, PpuState};

verus! {

pub type Addr = u16;

/// The owners of the address space.
#[derive(Clone, Copy, Debug, PartialEq, Eq, Structural)]
pub enum Region {
    BootRom,
    Vram,
    Wram,
    Oam,
    Joypad,
    Audio,
    GraphicsRegs,
    Hram,
    InterruptEnable,
}

impl Region {
    /// The address range that the memory map gives this region.
    pub open spec fn contains(self, addr: u16) -> bool {
        match self {
            Region::BootRom => addr <= 0x00FF,
            Region::Vram => 0x8000 <= addr <= 0x9FFF,
            Region::Wram => 0xC000 <= addr <= 0xDFFF,
            Region::Oam => 0xFE00 <= addr <= 0xFE9F,
            Region::Joypad => addr == 0xFF00,
            Region::Audio => 0xFF10 <= addr <= 0xFF3F,
            Region::GraphicsRegs => 0xFF40 <= addr <= 0xFF4B,
            Region::Hram => 0xFF80 <= addr <= 0xFFFE,
            Region::InterruptEnable => addr == 0xFFFF,
        }
    }
}

/// The region that serves `addr`, if any.
pub open spec fn region_of(addr: u16) -> Option<Region> {
    if addr <= 0x00FF {
        Some(Region::BootRom)
    } else if 0x8000 <= addr <= 0x9FFF {
        Some(Region::Vram)
    } else if 0xC000 <= addr <= 0xDFFF {
        Some(Region::Wram)
    } else if 0xFE00 <= addr <= 0xFE9F {
        Some(Region::Oam)
    } else if addr == 0xFF00 {
        Some(Region::Joypad)
    } else if 0xFF10 <= addr <= 0xFF3F {
        Some(Region::Audio)
    } else if 0xFF40 <= addr <= 0xFF4B {
        Some(Region::GraphicsRegs)
    } else if 0xFF80 <= addr <= 0xFFFE {
        Some(Region::Hram)
    } else if addr == 0xFFFF {
        Some(Region::InterruptEnable)
    } else {
        None
    }
}

/// The memory map partitions the address space: no two regions claim the
/// same address, the dispatch picks the one region whose range holds the
/// address, and where no range holds it there is no region.
pub proof fn lemma_address_map_partition(addr: u16)
    ensures
        forall|a: Region, b: Region| a.contains(addr) && b.contains(addr) ==> a == b,
        forall|a: Region| a.contains(addr) <==> region_of(addr) == Some(a),
        region_of(addr) is None <==> forall|a: Region| !a.contains(addr),
{
    if let Some(owner) = region_of(addr) {
        assert(owner.contains(addr));
    }
}

/// Finds the region that serves `addr`.
pub fn region(addr: Addr) -> (r: Option<Region>)
    ensures
        r == region_of(addr),
{
    if addr <= 0x00FF {
        Some(Region::BootRom)
    } else if 0x8000 <= addr && addr <= 0x9FFF {
        Some(Region::Vram)
    } else if 0xC000 <= addr && addr <= 0xDFFF {
        Some(Region::Wram)
    } else if 0xFE00 <= addr && addr <= 0xFE9F {
        Some(Region::Oam)
    } else if addr == 0xFF00 {
        Some(Region::Joypad)
    } else if 0xFF10 <= addr && addr <= 0xFF3F {
        Some(Region::Audio)
    } else if 0xFF40 <= addr && addr <= 0xFF4B {
        Some(Region::GraphicsRegs)
    } else if 0xFF80 <= addr && addr <= 0xFFFE {
        Some(Region::Hram)
    } else if addr == 0xFFFF {
        Some(Region::InterruptEnable)
    } else {
        None
    }
}

/// The joypad register as read: bits 5 and 4 echo the selection, where a 0
/// selects the action buttons (high nibble of `state`) or the direction keys
/// (low nibble); the low nibble is the selected buttons, active low, and
/// bits 7 and 6 read as 1.
pub open spec fn joypad_value(state: u8, sel: u8) -> u8 {
    let dir: u8 = if sel & 0x10 == 0 {
        state & 0x0F
    } else {
        0x0F
    };
    let act: u8 = if sel & 0x20 == 0 {
        state >> 4u8
    } else {
        0x0F
    };
    0xC0u8 | (sel & 0x30u8) | (dir & act)
}

/// Everything the bus holds.
pub struct BusState {
    pub boot_rom: Seq<u8>,
    pub wram: Seq<u8>,
    pub hram: Seq<u8>,
    pub ppu: PpuState,
    pub apu: ApuState,
    /// Buttons, 0 = pressed: action buttons (A, B, Select, Start) in the high
    /// nibble, directions (Right, Left, Up, Down) in the low nibble.
    pub joy_state: u8,
    /// The last value written to the joypad register.
    pub joy_sel: u8,
    /// The interrupt-enable register.
    pub ie: u8,
}

impl BusState {
    pub open spec fn wf(self) -> bool {
        &&& self.boot_rom.len() == 0x100
        &&& self.wram.len() == 0x2000
        &&& self.hram.len() == 0x7F
        &&& self.ppu.wf()
        &&& self.apu.wf()
    }
}

/// What a read of `addr` returns.
pub open spec fn read_spec(b: BusState, addr: u16) -> Result<u8, Fault> {
    match region_of(addr) {
        None => Err(Fault::UnmappedAddress { addr }),
        Some(Region::BootRom) => Ok(b.boot_rom[addr as int]),
        Some(Region::Vram) => Ok(b.ppu.vram[addr - 0x8000]),
        Some(Region::Wram) => Ok(b.wram[addr - 0xC000]),
        Some(Region::Oam) => Ok(b.ppu.oam[addr - 0xFE00]),
        Some(Region::Joypad) => Ok(joypad_value(b.joy_state, b.joy_sel)),
        Some(Region::Audio) => match b.apu.reg(addr) {
            Some(v) => Ok(v),
            None => Err(Fault::UnmappedAddress { addr }),
        },
        Some(Region::GraphicsRegs) => match b.ppu.reg(addr) {
            Some(v) => Ok(v),
            None => Err(Fault::UnmappedAddress { addr }),
        },
        Some(Region::Hram) => Ok(b.hram[addr - 0xFF80]),
        Some(Region::InterruptEnable) => Ok(b.ie),
    }
}

/// The bus after writing `val` to `addr`, or the fault that refuses it. The
/// boot ROM takes no writes.
pub open spec fn write_spec(b: BusState, addr: u16, val: u8) -> Result<BusState, Fault> {
    match region_of(addr) {
        None | Some(Region::BootRom) => Err(Fault::UnmappedAddress { addr }),
        Some(Region::Vram) => Ok(
            BusState { ppu: PpuState { vram: b.ppu.vram.update(addr - 0x8000, val), ..b.ppu }, ..b },
        ),
        Some(Region::Wram) => Ok(BusState { wram: b.wram.update(addr - 0xC000, val), ..b }),
        Some(Region::Oam) => Ok(
            BusState { ppu: PpuState { oam: b.ppu.oam.update(addr - 0xFE00, val), ..b.ppu }, ..b },
        ),
        Some(Region::Joypad) => Ok(BusState { joy_sel: val, ..b }),
        Some(Region::Audio) => if is_apu_register(addr) {
            Ok(BusState { apu: b.apu.with_reg(addr, val), ..b })
        } else {
            Err(Fault::UnmappedAddress { addr })
        },
        Some(Region::GraphicsRegs) => if b.ppu.reg(addr) is Some {
            Ok(BusState { ppu: b.ppu.with_reg(addr, val), ..b })
        } else {
            Err(Fault::UnmappedAddress { addr })
        },
        Some(Region::Hram) => Ok(BusState { hram: b.hram.update(addr - 0xFF80, val), ..b }),
        Some(Region::InterruptEnable) => Ok(BusState { ie: val, ..b }),
    }
}

/// All addressable storage, dispatched by address.
pub struct Bus {
    boot_rom: [u8; 0x100],
    wram: [u8; 0x2000],
    hram: [u8; 0x7F],
    apu: Apu,
    ppu: Ppu,
    joy_state: u8,
    joy_sel: u8,
    ie: u8,
}

impl View for Bus {
    type V = BusState;

    closed spec fn view(&self) -> BusState {
        BusState {
            boot_rom: self.boot_rom@,
            wram: self.wram@,
            hram: self.hram@,
            ppu: self.ppu@,
            apu: self.apu@,
            joy_state: self.joy_state,
            joy_sel: self.joy_sel,
            ie: self.ie,
        }
    }
}

impl Bus {
    pub open spec fn wf(&self) -> bool {
        self@.wf()
    }

    /// A bus whose boot ROM holds `boot_rom`, with every other memory zeroed,
    /// no button pressed and nothing selected on the joypad.
    pub fn new(boot_rom: &[u8; 0x100]) -> (r: Self)
        ensures
            r.wf(),
            r@.boot_rom == boot_rom@,
            r@.wram == Seq::new(0x2000, |i: int| 0u8),
            r@.hram == Seq::new(0x7F, |i: int| 0u8),
            r@.ppu.vram == Seq::new(0x2000, |i: int| 0u8),
            r@.ppu.oam == Seq::new(0xA0, |i: int| 0u8),
            r@.ppu.lcd == Seq::new(6, |i: int| 0u8),
            r@.ppu.obj == Seq::new(5, |i: int| 0u8),
            forall|addr: u16| is_apu_register(addr) ==> r@.apu.reg(addr) == Some(0u8),
            r@.apu.sample_rate == 44100,
            r@.apu.cycle_count == 0,
            r@.joy_state == 0xFF,
            r@.joy_sel == 0,
            r@.ie == 0,
    {
        let r = Bus {
            boot_rom: *boot_rom,
            wram: [0u8; 0x2000],
            hram: [0u8; 0x7F],
            apu: Apu::new(),
            ppu: Ppu::new(),
            joy_state: 0xFF,
            joy_sel: 0x00,
            ie: 0,
        };
        assert(r@.wram =~= Seq::new(0x2000, |i: int| 0u8));
        assert(r@.hram =~= Seq::new(0x7F, |i: int| 0u8));
        r
    }

    /// Sets the buttons held, 0 = pressed: action buttons (A, B, Select,
    /// Start) in the high nibble, directions (Right, Left, Up, Down) in the
    /// low nibble.
    pub fn write_joystate(&mut self, state: u8)
        ensures
            final(self)@ == (BusState { joy_state: state, ..old(self)@ }),
    {
        self.joy_state = state;
    }

    /// The joypad register as the CPU reads it.
    pub fn read_joystate(&self) -> (r: u8)
        ensures
            r == joypad_value(self@.joy_state, self@.joy_sel),
    {
        let dir: u8 = if self.joy_sel & 0x10 == 0 {
            self.joy_state & 0x0F
        } else {
            0x0F
        };
        let act: u8 = if self.joy_sel & 0x20 == 0 {
            self.joy_state >> 4
        } else {
            0x0F
        };
        0xC0 | (self.joy_sel & 0x30) | (dir & act)
    }

    pub fn read(&self, addr: Addr) -> (r: Result<u8, Fault>)
        requires
            self.wf(),
        ensures
            r == read_spec(self@, addr),
    {
        match region(addr) {
            None => Err(Fault::UnmappedAddress { addr }),
            Some(Region::BootRom) => Ok(self.boot_rom[addr as usize]),
            Some(Region::Vram) => Ok(self.ppu.read_vram(addr)),
            Some(Region::Wram) => Ok(self.wram[(addr - 0xC000) as usize]),
            Some(Region::Oam) => Ok(self.ppu.read_oam(addr)),
            Some(Region::Joypad) => Ok(self.read_joystate()),
            Some(Region::Audio) => if self.apu.is_register(addr) {
                Ok(self.apu.readByte(addr))
            } else {
                Err(Fault::UnmappedAddress { addr })
            },
            Some(Region::GraphicsRegs) => if self.ppu.has_reg(addr) {
                Ok(self.ppu.read_regs(addr))
            } else {
                Err(Fault::UnmappedAddress { addr })
            },
            Some(Region::Hram) => Ok(self.hram[(addr - 0xFF80) as usize]),
            Some(Region::InterruptEnable) => Ok(self.ie),
        }
    }

    /// Writes `val` to `addr`; on a fault nothing changes.
    pub fn write(&mut self, addr: Addr, val: u8) -> (r: Result<(), Fault>)
        requires
            old(self).wf(),
        ensures
            final(self).wf(),
            match write_spec(old(self)@, addr, val) {
                Ok(b) => r is Ok && final(self)@ == b,
                Err(e) => r == Err::<(), Fault>(e) && final(self)@ == old(self)@,
            },
    {
        match region(addr) {
            None | Some(Region::BootRom) => Err(Fault::UnmappedAddress { addr }),
            Some(Region::Vram) => {
                self.ppu.write_vram(addr, val);
                Ok(())
            },
            Some(Region::Wram) => {
                self.wram[(addr - 0xC000) as usize] = val;
                Ok(())
            },
            Some(Region::Oam) => {
                self.ppu.write_oam(addr, val);
                Ok(())
            },
            Some(Region::Joypad) => {
                self.joy_sel = val;
                Ok(())
            },
            Some(Region::Audio) => {
                if self.apu.is_register(addr) {
                    self.apu.writeByte(addr, val);
                    Ok(())
                } else {
                    Err(Fault::UnmappedAddress { addr })
                }
            },
            Some(Region::GraphicsRegs) => {
                if self.ppu.has_reg(addr) {
                    self.ppu.write_regs(addr, val);
                    Ok(())
                } else {
                    Err(Fault::UnmappedAddress { addr })
                }
            },
            Some(Region::Hram) => {
                self.hram[(addr - 0xFF80) as usize] = val;
                Ok(())
            },
            Some(Region::InterruptEnable) => {
                self.ie = val;
                Ok(())
            },
        }
    }
}

} // verus!
