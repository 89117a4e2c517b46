use vstd::prelude::*;

verus! {

/// What the graphics unit holds: video RAM (0x8000..0xA000), object
/// attribute memory (0xFE00..0xFEA0), the LCD control registers
/// (0xFF40..0xFF46) and the palette and window registers (0xFF47..0xFF4C).
pub struct PpuState {
    pub vram: Seq<u8>,
    pub oam: Seq<u8>,
    pub lcd: Seq<u8>,
    pub obj: Seq<u8>,
}

impl PpuState {
    pub open spec fn wf(self) -> bool {
        &&& self.vram.len() == 0x2000
        &&& self.oam.len() == 0xA0
        &&& self.lcd.len() == 6
        &&& self.obj.len() == 5
    }

    /// The register at `addr` (0xFF40..=0xFF4B); the OAM DMA register 0xFF46
    /// is not modelled.
    pub open spec fn reg(self, addr: u16) -> Option<u8> {
        if 0xFF40 <= addr < 0xFF46 {
            Some(self.lcd[addr - 0xFF40])
        } else if 0xFF47 <= addr <= 0xFF4B {
            Some(self.obj[addr - 0xFF47])
        } else {
            None
        }
    }

    /// The state after writing `val` to register `addr`, where that register
    /// is modelled.
    pub open spec fn with_reg(self, addr: u16, val: u8) -> PpuState {
        if 0xFF40 <= addr < 0xFF46 {
            PpuState { lcd: self.lcd.update(addr - 0xFF40, val), ..self }
        } else if 0xFF47 <= addr <= 0xFF4B {
            PpuState { obj: self.obj.update(addr - 0xFF47, val), ..self }
        } else {
            self
        }
    }
}

/// The graphics unit's memories and registers, addressed by bus address.
pub struct Ppu {
    vram: [u8; 0x2000],
    oam: [u8; 0xA0],
    rlcd: [u8; 6],
    robj: [u8; 5],
}

impl View for Ppu {
    type V = PpuState;

    closed spec fn view(&self) -> PpuState {
        PpuState { vram: self.vram@, oam: self.oam@, lcd: self.rlcd@, obj: self.robj@ }
    }
}

impl Ppu {
    pub open spec fn wf(&self) -> bool {
        self@.wf()
    }

    pub fn new() -> (r: Self)
        ensures
            r.wf(),
            r@.vram == Seq::new(0x2000, |i: int| 0u8),
            r@.oam == Seq::new(0xA0, |i: int| 0u8),
            r@.lcd == Seq::new(6, |i: int| 0u8),
            r@.obj == Seq::new(5, |i: int| 0u8),
    {
        let r = Ppu { vram: [0u8; 0x2000], oam: [0u8; 0xA0], rlcd: [0u8; 6], robj: [0u8; 5] };
        assert(r@.vram =~= Seq::new(0x2000, |i: int| 0u8));
        assert(r@.oam =~= Seq::new(0xA0, |i: int| 0u8));
        assert(r@.lcd =~= Seq::new(6, |i: int| 0u8));
        assert(r@.obj =~= Seq::new(5, |i: int| 0u8));
        r
    }

    pub fn read_vram(&self, addr: u16) -> (r: u8)
        requires
            self.wf(),
            0x8000 <= addr < 0xA000,
        ensures
            r == self@.vram[addr - 0x8000],
    {
        self.vram[(addr - 0x8000) as usize]
    }

    pub fn write_vram(&mut self, addr: u16, val: u8)
        requires
            old(self).wf(),
            0x8000 <= addr < 0xA000,
        ensures
            final(self).wf(),
            final(self)@ == (PpuState { vram: old(self)@.vram.update(addr - 0x8000, val), ..old(self)@ }),
    {
        self.vram[(addr - 0x8000) as usize] = val;
    }

    pub fn read_oam(&self, addr: u16) -> (r: u8)
        requires
            self.wf(),
            0xFE00 <= addr < 0xFEA0,
        ensures
            r == self@.oam[addr - 0xFE00],
    {
        self.oam[(addr - 0xFE00) as usize]
    }

    pub fn write_oam(&mut self, addr: u16, val: u8)
        requires
            old(self).wf(),
            0xFE00 <= addr < 0xFEA0,
        ensures
            final(self).wf(),
            final(self)@ == (PpuState { oam: old(self)@.oam.update(addr - 0xFE00, val), ..old(self)@ }),
    {
        self.oam[(addr - 0xFE00) as usize] = val;
    }

    /// Whether `addr` names a modelled control register: 0xFF40..=0xFF4B
    /// but for the OAM DMA register 0xFF46.
    pub fn has_reg(&self, addr: u16) -> (r: bool)
        ensures
            r == self@.reg(addr) is Some,
    {
        (0xFF40 <= addr && addr < 0xFF46) || (0xFF47 <= addr && addr <= 0xFF4B)
    }

    /// Reads a control register.
    pub fn read_regs(&self, addr: u16) -> (r: u8)
        requires
            self.wf(),
            0xFF40 <= addr <= 0xFF4B,
            addr != 0xFF46,
        ensures
            Some(r) == self@.reg(addr),
    {
        if addr < 0xFF46 {
            self.rlcd[(addr - 0xFF40) as usize]
        } else {
            self.robj[(addr - 0xFF47) as usize]
        }
    }

    /// Writes a control register.
    pub fn write_regs(&mut self, addr: u16, val: u8)
        requires
            old(self).wf(),
            0xFF40 <= addr <= 0xFF4B,
            addr != 0xFF46,
        ensures
            final(self).wf(),
            final(self)@ == old(self)@.with_reg(addr, val),
    {
        if addr < 0xFF46 {
            self.rlcd[(addr - 0xFF40) as usize] = val;
        } else {
            self.robj[(addr - 0xFF47) as usize] = val;
        }
    }
}

} // verus!
