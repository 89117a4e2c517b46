use vstd::prelude::*;

verus! {

/// Whether `addr` names one of the audio unit's registers: the channel,
/// mixer and power registers 0xFF10..=0xFF26 (but for the unused 0xFF15 and
/// 0xFF1F) and the wave pattern RAM 0xFF30..=0xFF3F.
pub open spec fn is_apu_register(addr: u16) -> bool {
    ||| 0xFF10 <= addr <= 0xFF14
    ||| 0xFF16 <= addr <= 0xFF1E
    ||| 0xFF20 <= addr <= 0xFF26
    ||| 0xFF30 <= addr <= 0xFF3F
}

/// What the audio unit holds: its registers, indexed from 0xFF10, the wave
/// pattern RAM, indexed from 0xFF30, its sample rate and the cycles counted.
pub struct ApuState {
    pub regs: Seq<u8>,
    pub wave: Seq<u8>,
    pub sample_rate: u32,
    pub cycle_count: u64,
}

impl ApuState {
    pub open spec fn wf(self) -> bool {
        self.regs.len() == 0x17 && self.wave.len() == 0x10
    }

    /// The value of register `addr`, or `None` where no register is.
    pub open spec fn reg(self, addr: u16) -> Option<u8> {
        if !is_apu_register(addr) {
            None
        } else if addr >= 0xFF30 {
            Some(self.wave[addr - 0xFF30])
        } else {
            Some(self.regs[addr - 0xFF10])
        }
    }

    /// The state after writing `val` to register `addr`; unchanged where no
    /// register is.
    pub open spec fn with_reg(self, addr: u16, val: u8) -> ApuState {
        if !is_apu_register(addr) {
            self
        } else if addr >= 0xFF30 {
            ApuState { wave: self.wave.update(addr - 0xFF30, val), ..self }
        } else {
            ApuState { regs: self.regs.update(addr - 0xFF10, val), ..self }
        }
    }
}

/// The audio unit's register file. Sound generation is not modelled.
pub struct Apu {
    regs: [u8; 0x17],
    wave_pattern_ram: [u8; 0x10],
    sample_rate: u32,
    cycle_count: u64,
}

impl View for Apu {
    type V = ApuState;

    closed spec fn view(&self) -> ApuState {
        ApuState {
            regs: self.regs@,
            wave: self.wave_pattern_ram@,
            sample_rate: self.sample_rate,
            cycle_count: self.cycle_count,
        }
    }
}

impl Apu {
    pub open spec fn wf(&self) -> bool {
        self@.wf()
    }

    pub fn new() -> (r: Self)
        ensures
            r.wf(),
            forall|addr: u16| is_apu_register(addr) ==> r@.reg(addr) == Some(0u8),
            r@.sample_rate == 44100,
            r@.cycle_count == 0,
    {
        Apu { regs: [0u8; 0x17], wave_pattern_ram: [0u8; 0x10], sample_rate: 44100, cycle_count: 0 }
    }

    /// Counts `cycles` more machine cycles.
    pub fn tick(&mut self, cycles: u8)
        requires
            old(self)@.cycle_count + cycles <= u64::MAX,
        ensures
            final(self)@ == (ApuState { cycle_count: (old(self)@.cycle_count + cycles) as u64, ..old(self)@ }),
    {
        self.cycle_count = self.cycle_count + cycles as u64;
    }

    pub fn cycle_count(&self) -> (r: u64)
        ensures
            r == self@.cycle_count,
    {
        self.cycle_count
    }

    /// Writes register `addr`.
    #[allow(non_snake_case)]
    pub fn writeByte(&mut self, addr: u16, val: u8)
        requires
            old(self).wf(),
            is_apu_register(addr),
        ensures
            final(self).wf(),
            final(self)@ == old(self)@.with_reg(addr, val),
    {
        if addr >= 0xFF30 {
            self.wave_pattern_ram[(addr - 0xFF30) as usize] = val;
        } else {
            self.regs[(addr - 0xFF10) as usize] = val;
        }
    }

    /// Reads register `addr`.
    #[allow(non_snake_case)]
    pub fn readByte(&self, addr: u16) -> (r: u8)
        requires
            self.wf(),
            is_apu_register(addr),
        ensures
            Some(r) == self@.reg(addr),
    {
        if addr >= 0xFF30 {
            self.wave_pattern_ram[(addr - 0xFF30) as usize]
        } else {
            self.regs[(addr - 0xFF10) as usize]
        }
    }

    /// Whether `addr` names one of the audio unit's registers.
    pub fn is_register(&self, addr: u16) -> (r: bool)
        ensures
            r == is_apu_register(addr),
    {
        (0xFF10 <= addr && addr <= 0xFF14) || (0xFF16 <= addr && addr <= 0xFF1E) || (0xFF20 <= addr
            && addr <= 0xFF26) || (0xFF30 <= addr && addr <= 0xFF3F)
    }
}

} // verus!
