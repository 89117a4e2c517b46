use vstd::prelude::*;
use crate::bus::{read_spec, write_spec, Bus, BusState};
use crate::decode::{decode, decode_spec, lemma_decoded_wf, Inst};
use crate::fault::Fault;
use crate::operand::{next_addr, value_of, OpdDst, OpdSrc, ReadVal, Stage};
use crate::reg::{
    lemma_reg8_overwrite, lemma_reg8_write_read, moved_reg16, wrap16, reg16_in, reg8_in, reg8_of_index, with_reg16, with_reg8,
    HiLo, Reg16, RegId16, RegId8,
};

verus! {

/// The flag bits of F.
#[derive(Clone, Copy, Debug, PartialEq, Eq, Structural)]
pub enum FlagBit {
    Z,
    N,
    H,
    C,
}

impl FlagBit {
    pub open spec fn bits(self) -> u8 {
        match self {
            FlagBit::Z => 0x80,
            FlagBit::N => 0x40,
            FlagBit::H => 0x20,
            FlagBit::C => 0x10,
        }
    }

    pub fn mask(&self) -> (r: u8)
        ensures
            r == self.bits(),
    {
        match self {
            FlagBit::Z => 0x80,
            FlagBit::N => 0x40,
            FlagBit::H => 0x20,
            FlagBit::C => 0x10,
        }
    }
}

/// `f` with flag `fb` set or cleared.
pub open spec fn set_flag(f: u8, fb: FlagBit, on: bool) -> u8 {
    if on {
        f | fb.bits()
    } else {
        f & !fb.bits()
    }
}

/// The flag register of a register file.
pub open spec fn flags(regs: Seq<u16>) -> u8 {
    reg8_in(regs, RegId8::F)
}

/// The signed value of a displacement byte.
pub open spec fn sext8(b: u8) -> int {
    if b < 0x80 {
        b as int
    } else {
        b - 0x100
    }
}

/// The register file after `PC` moves by `delta`.
pub open spec fn pc_moved(regs: Seq<u16>, delta: int) -> Seq<u16> {
    moved_reg16(regs, RegId16::PC, delta)
}

/// Reading 8-bit operand slot `slot`: a register's value is ready at once,
/// slot 6 is a read of memory at HL.
pub open spec fn slot_src(regs: Seq<u16>, slot: u8) -> Stage {
    if slot == 6 {
        Stage::Read(OpdSrc::Mem8(reg16_in(regs, RegId16::HL)))
    } else {
        Stage::Read(OpdSrc::Done8(reg8_in(regs, reg8_of_index(slot))))
    }
}

/// Writing `val` to 8-bit operand slot `slot`: a register takes it at once
/// and the instruction ends; slot 6 is a write of memory at HL.
pub open spec fn slot_dst(regs: Seq<u16>, slot: u8, val: u8) -> (Seq<u16>, Stage) {
    if slot == 6 {
        (regs, Stage::Write(OpdDst::Mem8(reg16_in(regs, RegId16::HL), val)))
    } else {
        (with_reg8(regs, reg8_of_index(slot), val), Stage::Fetch)
    }
}

/// The address that indirect mode `mode` names (BC, DE, HL, HL), and the
/// register file after HL's increment (mode 2) or decrement (mode 3).
pub open spec fn indirect(regs: Seq<u16>, mode: u8) -> (u16, Seq<u16>) {
    match mode {
        0 => (reg16_in(regs, RegId16::BC), regs),
        1 => (reg16_in(regs, RegId16::DE), regs),
        2 => (reg16_in(regs, RegId16::HL), moved_reg16(regs, RegId16::HL, 1)),
        _ => (reg16_in(regs, RegId16::HL), moved_reg16(regs, RegId16::HL, -1)),
    }
}

/// The address in the high page 0xFF00..=0xFFFF at offset `b`.
pub open spec fn high_page(b: u8) -> u16 {
    (0xFF00 + b) as u16
}

/// What an instruction does in the cycle its opcode is fetched: the register
/// file after it and the stage it goes on with.
pub open spec fn begin(regs: Seq<u16>, inst: Inst) -> (Seq<u16>, Stage) {
    let operand = next_addr(reg16_in(regs, RegId16::PC));
    match inst {
        Inst::LdR16Imm(_) => (pc_moved(regs, 1), Stage::Read(OpdSrc::Mem16(operand))),
        Inst::LdIndA(mode) => {
            let (addr, after) = indirect(pc_moved(regs, 1), mode);
            (after, Stage::Write(OpdDst::Mem8(addr, reg8_in(regs, RegId8::A))))
        },
        Inst::LdAInd(mode) => {
            let (addr, after) = indirect(regs, mode);
            (after, Stage::Read(OpdSrc::Mem8(addr)))
        },
        Inst::XorA(slot) => (regs, slot_src(regs, slot)),
        Inst::LdR8R8 { dst: _, src } => (regs, slot_src(regs, src)),
        Inst::LdhImmA => (pc_moved(regs, 1), Stage::Read(OpdSrc::Mem8(operand))),
        Inst::LdhCA => (regs, Stage::Read(OpdSrc::Done8(reg8_in(regs, RegId8::A)))),
        Inst::LdR8Imm(_) => (pc_moved(regs, 1), Stage::Read(OpdSrc::Mem8(operand))),
        Inst::IncR8(slot) => (regs, slot_src(regs, slot)),
        Inst::IncR16(r) => (regs, Stage::Read(OpdSrc::Done16(reg16_in(regs, r)))),
        Inst::Jr { .. } => (pc_moved(regs, 1), Stage::Read(OpdSrc::Mem8(operand))),
        Inst::Push(r) => (regs, Stage::Read(OpdSrc::Done16(reg16_in(regs, r)))),
        Inst::Bit { bit: _, slot } => (regs, slot_src(regs, slot)),
    }
}

/// Whether a taken `JR` condition holds under flags `f`.
pub open spec fn jr_taken(f: u8, carry: bool, when_set: bool) -> bool {
    let fb = if carry {
        FlagBit::C
    } else {
        FlagBit::Z
    };
    (f & fb.bits() != 0) == when_set
}

/// What an instruction does once its source value `v` is ready: the register
/// file after it and the stage it goes on with.
pub open spec fn finish(regs: Seq<u16>, inst: Inst, v: ReadVal) -> (Seq<u16>, Stage) {
    let b: u8 = match v {
        ReadVal::Done8(x) => x,
        ReadVal::Done16(_) => 0,
    };
    let w: u16 = match v {
        ReadVal::Done16(x) => x,
        ReadVal::Done8(_) => 0,
    };
    match inst {
        Inst::LdR16Imm(r) => (pc_moved(with_reg16(regs, r, w), 2), Stage::Fetch),
        Inst::LdIndA(_) => (regs, Stage::Fetch),
        Inst::LdAInd(_) => (pc_moved(with_reg8(regs, RegId8::A, b), 1), Stage::Fetch),
        Inst::XorA(_) => {
            let x = reg8_in(regs, RegId8::A) ^ b;
            (
                pc_moved(with_reg8(with_reg8(regs, RegId8::A, x), RegId8::F, set_flag(0, FlagBit::Z, x == 0)), 1),
                Stage::Fetch,
            )
        },
        Inst::LdR8R8 { dst, src: _ } => slot_dst(pc_moved(regs, 1), dst, b),
        Inst::LdhImmA => (
            pc_moved(regs, 1),
            Stage::Write(OpdDst::Mem8(high_page(b), reg8_in(regs, RegId8::A))),
        ),
        Inst::LdhCA => (
            pc_moved(regs, 1),
            Stage::Write(OpdDst::Mem8(high_page(reg8_in(regs, RegId8::C)), b)),
        ),
        Inst::LdR8Imm(slot) => slot_dst(pc_moved(regs, 1), slot, b),
        Inst::IncR8(slot) => slot_dst(pc_moved(regs, 1), slot, ((b + 1) % 0x100) as u8),
        Inst::IncR16(r) => (with_reg16(pc_moved(regs, 1), r, wrap16(w + 1)), Stage::Write(OpdDst::Done)),
        Inst::Jr { carry, when_set } => if jr_taken(flags(regs), carry, when_set) {
            (pc_moved(regs, sext8(b) + 1), Stage::Write(OpdDst::Done))
        } else {
            (pc_moved(regs, 1), Stage::Fetch)
        },
        Inst::Push(_) => {
            let after = moved_reg16(pc_moved(regs, 1), RegId16::SP, -2);
            (after, Stage::Write(OpdDst::Mem16(reg16_in(after, RegId16::SP), w)))
        },
        Inst::Bit { bit, slot: _ } => {
            let f = flags(regs);
            let f1 = set_flag(f, FlagBit::Z, (b >> bit) & 1 == 0);
            let f2 = set_flag(set_flag(f1, FlagBit::N, false), FlagBit::H, true);
            (pc_moved(with_reg8(regs, RegId8::F, f2), 1), Stage::Fetch)
        },
    }
}

/// Whether `inst` goes through a `Read` stage, and then whether its value is
/// a word rather than a byte.
pub open spec fn reads_value(inst: Inst) -> bool {
    !(inst is LdIndA)
}

pub open spec fn reads_word(inst: Inst) -> bool {
    inst is LdR16Imm || inst is IncR16 || inst is Push
}

pub open spec fn src_is_word(src: OpdSrc) -> bool {
    src is Mem16 || src is Mem16Half || src is Done16
}

/// Where an instruction stands between two machine cycles.
pub struct CpuState {
    pub regs: Seq<u16>,
    pub opcode: u8,
    pub stage: Stage,
    pub prefixed: bool,
}

impl CpuState {
    /// Six pairs; the low nibble of F is zero; a pending read belongs to the
    /// instruction being executed and has the width it expects.
    pub open spec fn wf(self) -> bool {
        &&& self.regs.len() == 6
        &&& flags(self.regs) & 0x0F == 0
        &&& self.stage matches Stage::Read(src) ==> {
            &&& decode_spec(self.opcode, self.prefixed) matches Some(inst)
            &&& reads_value(inst)
            &&& src_is_word(src) == reads_word(inst)
        }
    }

    pub open spec fn pc(self) -> u16 {
        reg16_in(self.regs, RegId16::PC)
    }
}

/// Finishes the instruction at once when its source value is ready; other
/// states are left as they are.
pub open spec fn dispatch(s: CpuState) -> CpuState {
    match s.stage {
        Stage::Read(src) => if src.is_ready() {
            match decode_spec(s.opcode, s.prefixed) {
                Some(inst) => {
                    let (regs, stage) = finish(s.regs, inst, value_of(src));
                    CpuState { regs, stage, ..s }
                },
                None => s,
            }
        } else {
            s
        },
        _ => s,
    }
}

/// The state once opcode `op` has been fetched from PC, or the fault for an
/// opcode outside the table.
pub open spec fn begun(s: CpuState, op: u8, prefixed: bool) -> Result<CpuState, Fault> {
    match decode_spec(op, prefixed) {
        None => Err(Fault::UnimplementedOpcode { opcode: op, prefixed, pc: s.pc() }),
        Some(inst) => {
            let (regs, stage) = begin(s.regs, inst);
            Ok(dispatch(CpuState { regs, opcode: op, stage, prefixed }))
        },
    }
}

/// One machine cycle: the CPU and bus after it, or the fault that stops it.
/// Its body is stated for callers, stage by stage, by [`lemma_step_fetch`],
/// [`lemma_step_fetch_prefixed`], [`lemma_step_read`], [`lemma_step_wait`]
/// and [`lemma_step_write`].
pub closed spec fn step(s: CpuState, bus: BusState) -> Result<(CpuState, BusState), Fault> {
    match s.stage {
        Stage::Fetch => match read_spec(bus, s.pc()) {
            Err(e) => Err(e),
            Ok(op) => if op == 0xCB {
                Ok(
                    (
                        CpuState {
                            regs: pc_moved(s.regs, 1),
                            opcode: op,
                            stage: Stage::FetchPrefixed,
                            prefixed: true,
                        },
                        bus,
                    ),
                )
            } else {
                match begun(s, op, false) {
                    Ok(next) => Ok((next, bus)),
                    Err(e) => Err(e),
                }
            },
        },
        Stage::FetchPrefixed => match read_spec(bus, s.pc()) {
            Err(e) => Err(e),
            Ok(op) => match begun(s, op, true) {
                Ok(next) => Ok((next, bus)),
                Err(e) => Err(e),
            },
        },
        Stage::Read(src) => match src.step(bus) {
            Err(e) => Err(e),
            Ok(next) => Ok((dispatch(CpuState { stage: Stage::Read(next), ..s }), bus)),
        },
        Stage::Wait(dst) => Ok((CpuState { stage: Stage::Write(dst), ..s }, bus)),
        Stage::Write(dst) => match dst.step(bus) {
            Err(e) => Err(e),
            Ok((next, b)) => Ok(
                (
                    CpuState {
                        stage: if next.is_done() {
                            Stage::Fetch
                        } else {
                            Stage::Write(next)
                        },
                        ..s
                    },
                    b,
                ),
            ),
        },
    }
}

/// The state at reset: every register zero, about to fetch from address 0.
pub open spec fn reset_state() -> CpuState {
    CpuState { regs: Seq::new(6, |i: int| 0u16), opcode: 0, stage: Stage::Fetch, prefixed: false }
}

proof fn lemma_low_nibble(v: u16)
    ensures
        (v % 16 == 0) == (((v as int % 256) as u8) & 0x0F == 0),
{
    assert((v % 16u16 == 0) == (((v % 256u16) as u8) & 0x0Fu8 == 0)) by (bit_vector);
}

/// The register file and where the CPU stands within the current
/// instruction.
pub struct Cpu {
    regs: [u16; 6],
    opcode: u8,
    stage: Stage,
    prefixed: bool,
}

impl View for Cpu {
    type V = CpuState;

    closed spec fn view(&self) -> CpuState {
        CpuState { regs: self.regs@, opcode: self.opcode, stage: self.stage, prefixed: self.prefixed }
    }
}

impl Cpu {
    pub open spec fn wf(&self) -> bool {
        self@.wf()
    }

    /// A CPU at reset: every register zero, about to fetch from address 0.
    pub fn new() -> (r: Self)
        ensures
            r.wf(),
            r@ == reset_state(),
    {
        let r = Cpu { regs: [0u16; 6], opcode: 0, stage: Stage::Fetch, prefixed: false };
        assert(r@.regs =~= Seq::new(6, |i: int| 0u16));
        proof {
            lemma_low_nibble(0);
        }
        r
    }

    pub fn get16(&self, id: RegId16) -> (r: u16)
        ensures
            r == reg16_in(self@.regs, id),
    {
        self.regs[id.as_index()]
    }

    /// Sets a register pair. The low nibble of F is always zero, so a value
    /// for AF must have it clear.
    pub fn set16(&mut self, id: RegId16, v: u16)
        requires
            old(self).wf(),
            id == RegId16::AF ==> v % 16 == 0,
        ensures
            final(self).wf(),
            final(self)@ == (CpuState { regs: with_reg16(old(self)@.regs, id, v), ..old(self)@ }),
    {
        self.put16(id, v);
        proof {
            lemma_low_nibble(v);
        }
    }

    pub fn get8(&self, id: RegId8) -> (r: u8)
        ensures
            r == reg8_in(self@.regs, id),
    {
        let mut pair = Reg16::new(self.regs[id.resides().as_index()]);
        match id.hilo() {
            HiLo::Hi => pair.hi().get(),
            HiLo::Lo => pair.lo().get(),
        }
    }

    /// Sets an 8-bit register, keeping the other half of its pair. The low
    /// nibble of F is always zero, so a value for F must have it clear.
    pub fn set8(&mut self, id: RegId8, b: u8)
        requires
            old(self).wf(),
            id == RegId8::F ==> b & 0x0F == 0,
        ensures
            final(self).wf(),
            final(self)@ == (CpuState { regs: with_reg8(old(self)@.regs, id, b), ..old(self)@ }),
    {
        self.put8(id, b);
        proof {
            lemma_reg8_write_read(old(self)@.regs, id, b);
        }
    }

    /// Where the CPU stands within the current instruction.
    pub fn stage(&self) -> (r: Stage)
        ensures
            r == self@.stage,
    {
        self.stage
    }

    /// The opcode of the instruction being executed (0xCB while its
    /// successor is fetched).
    pub fn opcode(&self) -> (r: u8)
        ensures
            r == self@.opcode,
    {
        self.opcode
    }

    fn put16(&mut self, id: RegId16, v: u16)
        ensures
            final(self)@ == (CpuState { regs: with_reg16(old(self)@.regs, id, v), ..old(self)@ }),
    {
        self.regs[id.as_index()] = v;
    }

    fn put8(&mut self, id: RegId8, b: u8)
        ensures
            final(self)@ == (CpuState { regs: with_reg8(old(self)@.regs, id, b), ..old(self)@ }),
    {
        let k = id.resides().as_index();
        let mut pair = Reg16::new(self.regs[k]);
        match id.hilo() {
            HiLo::Hi => {
                let mut view = pair.hi();
                view.set(b);
            },
            HiLo::Lo => {
                let mut view = pair.lo();
                view.set(b);
            },
        }
        self.regs[k] = pair.get();
        assert(self@.regs =~= with_reg8(old(self)@.regs, id, b));
    }

    /// Moves pair `id` up by `delta`, modulo 65536, and returns the value it
    /// had.
    fn add16(&mut self, id: RegId16, delta: u16) -> (r: u16)
        ensures
            r == reg16_in(old(self)@.regs, id),
            final(self)@ == (CpuState { regs: moved_reg16(old(self)@.regs, id, delta as int), ..old(self)@ }),
    {
        let k = id.as_index();
        let before = self.regs[k];
        self.regs[k] = before.wrapping_add(delta);
        before
    }

    /// Moves pair `id` down by `delta`, modulo 65536, and returns the value
    /// it had.
    fn sub16(&mut self, id: RegId16, delta: u16) -> (r: u16)
        ensures
            r == reg16_in(old(self)@.regs, id),
            final(self)@ == (CpuState { regs: moved_reg16(old(self)@.regs, id, -delta), ..old(self)@ }),
    {
        let k = id.as_index();
        let before = self.regs[k];
        self.regs[k] = before.wrapping_sub(delta);
        before
    }

    /// Sets or clears one flag and returns the flags as they were.
    fn flag_set(&mut self, fb: FlagBit, val: bool) -> (r: u8)
        ensures
            r == flags(old(self)@.regs),
            final(self)@ == (CpuState {
                regs: with_reg8(old(self)@.regs, RegId8::F, set_flag(flags(old(self)@.regs), fb, val)),
                ..old(self)@
            }),
    {
        let f = self.get8(RegId8::F);
        let next = if val {
            f | fb.mask()
        } else {
            f & !fb.mask()
        };
        self.put8(RegId8::F, next);
        f
    }

    /// The stage that reads 8-bit operand slot `idx`.
    fn decode_regind8_src(&self, idx: u8) -> (r: Stage)
        requires
            idx < 8,
        ensures
            r == slot_src(self@.regs, idx),
    {
        if idx == 6 {
            Stage::Read(OpdSrc::Mem8(self.get16(RegId16::HL)))
        } else {
            Stage::Read(OpdSrc::Done8(self.get8(RegId8::new(idx))))
        }
    }

    /// Writes `val` to 8-bit operand slot `idx`: a register at once, memory
    /// through the stage returned.
    fn decode_regind8_dst(&mut self, idx: u8, val: u8) -> (r: Stage)
        requires
            idx < 8,
        ensures
            (final(self)@.regs, r) == slot_dst(old(self)@.regs, idx, val),
            final(self)@ == (CpuState { regs: final(self)@.regs, ..old(self)@ }),
    {
        if idx == 6 {
            Stage::Write(OpdDst::Mem8(self.get16(RegId16::HL), val))
        } else {
            self.put8(RegId8::new(idx), val);
            Stage::Fetch
        }
    }

    /// The address indirect mode `mode` names, with HL stepped after use in
    /// modes 2 and 3.
    fn regind16_addr(&mut self, mode: u8) -> (r: u16)
        requires
            mode < 4,
        ensures
            (r, final(self)@.regs) == indirect(old(self)@.regs, mode),
            final(self)@ == (CpuState { regs: final(self)@.regs, ..old(self)@ }),
    {
        match mode {
            0 => self.get16(RegId16::BC),
            1 => self.get16(RegId16::DE),
            2 => self.add16(RegId16::HL, 1),
            _ => self.sub16(RegId16::HL, 1),
        }
    }

    fn decode_regind16_src(&mut self, mode: u8) -> (r: Stage)
        requires
            mode < 4,
        ensures
            (r->Read_0->Mem8_0, final(self)@.regs) == indirect(old(self)@.regs, mode),
            r is Read && r->Read_0 is Mem8,
            final(self)@ == (CpuState { regs: final(self)@.regs, ..old(self)@ }),
    {
        Stage::Read(OpdSrc::Mem8(self.regind16_addr(mode)))
    }

    fn decode_regind16_dst(&mut self, mode: u8, val: u8) -> (r: Stage)
        requires
            mode < 4,
        ensures
            r == Stage::Write(OpdDst::Mem8(indirect(old(self)@.regs, mode).0, val)),
            final(self)@.regs == indirect(old(self)@.regs, mode).1,
            final(self)@ == (CpuState { regs: final(self)@.regs, ..old(self)@ }),
    {
        Stage::Write(OpdDst::Mem8(self.regind16_addr(mode), val))
    }

    fn decode_reg16_src(&self, id: RegId16) -> (r: Stage)
        ensures
            r == Stage::Read(OpdSrc::Done16(reg16_in(self@.regs, id))),
    {
        Stage::Read(OpdSrc::Done16(self.get16(id)))
    }

    /// Sets pair `id`; the instruction then spends one idle cycle.
    fn decode_reg16_dst(&mut self, id: RegId16, val: u16) -> (r: Stage)
        ensures
            r == Stage::Write(OpdDst::Done),
            final(self)@ == (CpuState { regs: with_reg16(old(self)@.regs, id, val), ..old(self)@ }),
    {
        self.put16(id, val);
        Stage::Write(OpdDst::Done)
    }
}

/// Which half of an instruction the execute step is asked for: the cycle its
/// opcode is fetched, or the point its source value is ready.
pub enum Phase {
    InstFetch,
    ValueReady(ReadVal),
}

/// What an execute step does to the register file and which stage follows.
pub open spec fn execute(regs: Seq<u16>, inst: Inst, phase: Phase) -> (Seq<u16>, Stage) {
    match phase {
        Phase::InstFetch => begin(regs, inst),
        Phase::ValueReady(v) => finish(regs, inst, v),
    }
}

/// A value handed to an execute step suits the instruction.
pub open spec fn phase_fits(inst: Inst, phase: Phase) -> bool {
    phase matches Phase::ValueReady(v) ==> reads_value(inst) && (v is Done16) == reads_word(inst)
}

impl Cpu {
    /// The execute step of an unprefixed instruction.
    #[verifier::spinoff_prover]
    #[verifier::rlimit(40)]
    fn inst_step(&mut self, inst: Inst, phase: Phase) -> (r: Stage)
        requires
            inst.wf(),
            !(inst is Bit),
            phase_fits(inst, phase),
        ensures
            (final(self)@.regs, r) == execute(old(self)@.regs, inst, phase),
            final(self)@ == (CpuState { regs: final(self)@.regs, ..old(self)@ }),
    {
        match inst {
            Inst::LdR16Imm(r) => match phase {
                Phase::InstFetch => {
                    self.add16(RegId16::PC, 1);
                    Stage::Read(OpdSrc::Mem16(self.get16(RegId16::PC)))
                },
                Phase::ValueReady(v) => {
                    self.put16(r, v.get16());
                    self.add16(RegId16::PC, 2);
                    Stage::Fetch
                },
            },
            Inst::LdIndA(mode) => {
                self.add16(RegId16::PC, 1);
                let a = self.get8(RegId8::A);
                self.decode_regind16_dst(mode, a)
            },
            Inst::LdAInd(mode) => match phase {
                Phase::InstFetch => self.decode_regind16_src(mode),
                Phase::ValueReady(v) => {
                    self.put8(RegId8::A, v.get8());
                    self.add16(RegId16::PC, 1);
                    Stage::Fetch
                },
            },
            Inst::XorA(slot) => match phase {
                Phase::InstFetch => self.decode_regind8_src(slot),
                Phase::ValueReady(v) => {
                    let x = self.get8(RegId8::A) ^ v.get8();
                    self.put8(RegId8::A, x);
                    let ghost mid = self@.regs;
                    self.put8(RegId8::F, 0);
                    self.flag_set(FlagBit::Z, x == 0);
                    proof {
                        lemma_reg8_write_read(mid, RegId8::F, 0);
                        lemma_reg8_overwrite(mid, RegId8::F, 0, set_flag(0, FlagBit::Z, x == 0));
                    }
                    self.add16(RegId16::PC, 1);
                    Stage::Fetch
                },
            },
            Inst::LdR8R8 { dst, src } => match phase {
                Phase::InstFetch => self.decode_regind8_src(src),
                Phase::ValueReady(v) => {
                    self.add16(RegId16::PC, 1);
                    self.decode_regind8_dst(dst, v.get8())
                },
            },
            Inst::LdhImmA => match phase {
                Phase::InstFetch => {
                    self.add16(RegId16::PC, 1);
                    Stage::Read(OpdSrc::Mem8(self.get16(RegId16::PC)))
                },
                Phase::ValueReady(v) => {
                    self.add16(RegId16::PC, 1);
                    Stage::Write(OpdDst::Mem8(as_hiaddr(v.get8()), self.get8(RegId8::A)))
                },
            },
            Inst::LdhCA => match phase {
                Phase::InstFetch => Stage::Read(OpdSrc::Done8(self.get8(RegId8::A))),
                Phase::ValueReady(v) => {
                    self.add16(RegId16::PC, 1);
                    Stage::Write(OpdDst::Mem8(as_hiaddr(self.get8(RegId8::C)), v.get8()))
                },
            },
            Inst::LdR8Imm(slot) => match phase {
                Phase::InstFetch => {
                    self.add16(RegId16::PC, 1);
                    Stage::Read(OpdSrc::Mem8(self.get16(RegId16::PC)))
                },
                Phase::ValueReady(v) => {
                    self.add16(RegId16::PC, 1);
                    self.decode_regind8_dst(slot, v.get8())
                },
            },
            Inst::IncR8(slot) => match phase {
                Phase::InstFetch => self.decode_regind8_src(slot),
                Phase::ValueReady(v) => {
                    self.add16(RegId16::PC, 1);
                    self.decode_regind8_dst(slot, v.get8().wrapping_add(1))
                },
            },
            Inst::IncR16(r) => match phase {
                Phase::InstFetch => self.decode_reg16_src(r),
                Phase::ValueReady(v) => {
                    self.add16(RegId16::PC, 1);
                    self.decode_reg16_dst(r, v.get16().wrapping_add(1))
                },
            },
            Inst::Jr { carry, when_set } => match phase {
                Phase::InstFetch => {
                    self.add16(RegId16::PC, 1);
                    Stage::Read(OpdSrc::Mem8(self.get16(RegId16::PC)))
                },
                Phase::ValueReady(v) => {
                    let fb = if carry {
                        FlagBit::C
                    } else {
                        FlagBit::Z
                    };
                    let set = self.get8(RegId8::F) & fb.mask() != 0;
                    if set == when_set {
                        let d = v.get8();
                        // the displacement, sign-extended to 16 bits
                        let disp: u16 = if d < 0x80 {
                            d as u16
                        } else {
                            d as u16 + 0xFF00
                        };
                        self.add16(RegId16::PC, disp.wrapping_add(1));
                        Stage::Write(OpdDst::Done)
                    } else {
                        self.add16(RegId16::PC, 1);
                        Stage::Fetch
                    }
                },
            },
            Inst::Push(r) => match phase {
                Phase::InstFetch => self.decode_reg16_src(r),
                Phase::ValueReady(v) => {
                    self.add16(RegId16::PC, 1);
                    self.sub16(RegId16::SP, 2);
                    Stage::Write(OpdDst::Mem16(self.get16(RegId16::SP), v.get16()))
                },
            },
            Inst::Bit { .. } => unreached(),
        }
    }

    /// The execute step of an instruction after the 0xCB escape.
    fn inst_prefix_step(&mut self, inst: Inst, phase: Phase) -> (r: Stage)
        requires
            inst.wf(),
            inst is Bit,
            phase_fits(inst, phase),
        ensures
            (final(self)@.regs, r) == execute(old(self)@.regs, inst, phase),
            final(self)@ == (CpuState { regs: final(self)@.regs, ..old(self)@ }),
    {
        match inst {
            Inst::Bit { bit, slot } => match phase {
                Phase::InstFetch => self.decode_regind8_src(slot),
                Phase::ValueReady(v) => {
                    let ghost start = self@.regs;
                    let ghost f = flags(start);
                    let ghost f1 = set_flag(f, FlagBit::Z, (v->Done8_0 >> bit) & 1 == 0);
                    let ghost f2 = set_flag(f1, FlagBit::N, false);
                    let ghost f3 = set_flag(f2, FlagBit::H, true);
                    self.flag_set(FlagBit::Z, (v.get8() >> bit) & 1 == 0);
                    proof {
                        lemma_reg8_write_read(start, RegId8::F, f1);
                    }
                    self.flag_set(FlagBit::N, false);
                    proof {
                        lemma_reg8_overwrite(start, RegId8::F, f1, f2);
                        lemma_reg8_write_read(start, RegId8::F, f2);
                    }
                    self.flag_set(FlagBit::H, true);
                    proof {
                        lemma_reg8_overwrite(start, RegId8::F, f2, f3);
                    }
                    self.add16(RegId16::PC, 1);
                    Stage::Fetch
                },
            },
            _ => unreached(),
        }
    }
}

proof fn lemma_flag_masks(f: u8)
    by (bit_vector)
    requires
        f & 0x0Fu8 == 0,
    ensures
        (f | 0x80u8) & 0x0Fu8 == 0,
        (f & !0x80u8) & 0x0Fu8 == 0,
        (f | 0x40u8) & 0x0Fu8 == 0,
        (f & !0x40u8) & 0x0Fu8 == 0,
        (f | 0x20u8) & 0x0Fu8 == 0,
        (f & !0x20u8) & 0x0Fu8 == 0,
        (f | 0x10u8) & 0x0Fu8 == 0,
        (f & !0x10u8) & 0x0Fu8 == 0,
{
}

/// Setting or clearing a flag keeps the low nibble of F zero.
proof fn lemma_set_flag_low(f: u8, fb: FlagBit, on: bool)
    requires
        f & 0x0F == 0,
    ensures
        set_flag(f, fb, on) & 0x0F == 0,
{
    lemma_flag_masks(f);
}

/// A register file of six pairs whose F has a zero low nibble.
pub open spec fn regs_wf(regs: Seq<u16>) -> bool {
    regs.len() == 6 && flags(regs) & 0x0F == 0
}

/// Every execute step keeps the low nibble of F zero.
pub proof fn lemma_execute_regs_wf(regs: Seq<u16>, inst: Inst, phase: Phase)
    requires
        regs_wf(regs),
        inst.wf(),
    ensures
        regs_wf(execute(regs, inst, phase).0),
{
    let b: u8 = match phase {
        Phase::ValueReady(ReadVal::Done8(x)) => x,
        _ => 0,
    };
    let a = reg8_in(regs, RegId8::A);
    lemma_reg8_write_read(regs, RegId8::A, b);
    lemma_reg8_write_read(regs, RegId8::A, a ^ b);
    let pc1 = pc_moved(regs, 1);
    match inst {
        Inst::XorA(_) => {
            let x = a ^ b;
            let with_a = with_reg8(regs, RegId8::A, x);
            assert(0u8 & 0x0Fu8 == 0) by (bit_vector);
            lemma_set_flag_low(0, FlagBit::Z, x == 0);
            lemma_reg8_write_read(with_a, RegId8::F, set_flag(0, FlagBit::Z, x == 0));
        },
        Inst::LdR8R8 { dst, src: _ } => {
            if dst != 6 {
                lemma_reg8_write_read(pc1, reg8_of_index(dst), b);
            }
        },
        Inst::LdR8Imm(slot) => {
            if slot != 6 {
                lemma_reg8_write_read(pc1, reg8_of_index(slot), b);
            }
        },
        Inst::IncR8(slot) => {
            if slot != 6 {
                lemma_reg8_write_read(pc1, reg8_of_index(slot), ((b + 1) % 0x100) as u8);
            }
        },
        Inst::Bit { bit, slot: _ } => {
            let f = flags(regs);
            let f1 = set_flag(f, FlagBit::Z, (b >> bit) & 1 == 0);
            let f2 = set_flag(f1, FlagBit::N, false);
            let f3 = set_flag(f2, FlagBit::H, true);
            lemma_set_flag_low(f, FlagBit::Z, (b >> bit) & 1 == 0);
            lemma_set_flag_low(f1, FlagBit::N, false);
            lemma_set_flag_low(f2, FlagBit::H, true);
            lemma_reg8_write_read(regs, RegId8::F, f3);
        },
        _ => {},
    }
}

/// A cycle in `Fetch` reads the opcode at PC. The escape byte 0xCB moves PC
/// past itself and leads to `FetchPrefixed`; any other byte starts its
/// instruction as [`begun`] says. A fault of the read stops the cycle.
pub proof fn lemma_step_fetch(s: CpuState, bus: BusState)
    requires
        s.stage is Fetch,
    ensures
        step(s, bus) == match read_spec(bus, s.pc()) {
            Err(e) => Err(e),
            Ok(op) => if op == 0xCB {
                Ok(
                    (
                        CpuState {
                            regs: pc_moved(s.regs, 1),
                            opcode: op,
                            stage: Stage::FetchPrefixed,
                            prefixed: true,
                        },
                        bus,
                    ),
                )
            } else {
                match begun(s, op, false) {
                    Ok(next) => Ok((next, bus)),
                    Err(e) => Err(e),
                }
            },
        },
{
}

/// A cycle in `FetchPrefixed` reads the opcode after the escape at PC and
/// starts it as a prefixed instruction, as [`begun`] says.
pub proof fn lemma_step_fetch_prefixed(s: CpuState, bus: BusState)
    requires
        s.stage is FetchPrefixed,
    ensures
        step(s, bus) == match read_spec(bus, s.pc()) {
            Err(e) => Err(e),
            Ok(op) => match begun(s, op, true) {
                Ok(next) => Ok((next, bus)),
                Err(e) => Err(e),
            },
        },
{
}

/// A cycle in `Read` takes one read step of the source descriptor (none when
/// it is ready) and finishes the instruction at once when the value is then
/// ready, as [`dispatch`] says. The bus is unchanged.
pub proof fn lemma_step_read(s: CpuState, bus: BusState, src: OpdSrc)
    requires
        s.stage == Stage::Read(src),
    ensures
        step(s, bus) == match src.step(bus) {
            Err(e) => Err(e),
            Ok(next) => Ok((dispatch(CpuState { stage: Stage::Read(next), ..s }), bus)),
        },
{
}

/// A cycle in `Wait` is idle: the stage becomes `Write` of the same
/// descriptor, and registers and bus are unchanged.
pub proof fn lemma_step_wait(s: CpuState, bus: BusState, dst: OpdDst)
    requires
        s.stage == Stage::Wait(dst),
    ensures
        step(s, bus) == Ok::<(CpuState, BusState), Fault>(
            (CpuState { stage: Stage::Write(dst), ..s }, bus),
        ),
{
}

/// A cycle in `Write` takes one write step of the destination descriptor
/// (none when it is done) and returns to `Fetch` once nothing is left to
/// write. A fault of the write stops the cycle.
pub proof fn lemma_step_write(s: CpuState, bus: BusState, dst: OpdDst)
    requires
        s.stage == Stage::Write(dst),
    ensures
        step(s, bus) == match dst.step(bus) {
            Err(e) => Err(e),
            Ok((next, b)) => Ok(
                (
                    CpuState {
                        stage: if next.is_done() {
                            Stage::Fetch
                        } else {
                            Stage::Write(next)
                        },
                        ..s
                    },
                    b,
                ),
            ),
        },
{
}

/// A fetched opcode that no family of the instruction table matches stops
/// the cycle with `UnimplementedOpcode`, carrying the opcode and the PC it was
/// read from; [`Cpu::cycle`] then leaves registers, PC and bus as they were.
pub proof fn lemma_unimplemented_opcode(s: CpuState, bus: BusState, op: u8)
    requires
        s.stage is Fetch || s.stage is FetchPrefixed,
        read_spec(bus, s.pc()) == Ok::<u8, Fault>(op),
        s.stage is Fetch ==> op != 0xCB,
        decode_spec(op, s.stage is FetchPrefixed) is None,
    ensures
        step(s, bus) == Err::<(CpuState, BusState), Fault>(
            Fault::UnimplementedOpcode { opcode: op, prefixed: s.stage is FetchPrefixed, pc: s.pc() },
        ),
{
}

/// HALT (0x76) is outside the instruction table: fetching it stops the cycle
/// with `UnimplementedOpcode`; it is never run as `LD r/m8, r/m8`.
pub proof fn lemma_halt_unimplemented(s: CpuState, bus: BusState)
    requires
        s.stage is Fetch,
        read_spec(bus, s.pc()) == Ok::<u8, Fault>(0x76),
    ensures
        step(s, bus) == Err::<(CpuState, BusState), Fault>(
            Fault::UnimplementedOpcode { opcode: 0x76, prefixed: false, pc: s.pc() },
        ),
{
    assert(0x76u8 & 0xCFu8 == 0x46u8 && 0x76u8 & 0xF8u8 == 0x70u8 && 0x76u8 & 0xC7u8 == 0x46u8
        && 0x76u8 & 0xD7u8 == 0x56u8) by (bit_vector);
    lemma_unimplemented_opcode(s, bus, 0x76);
}

/// After the 0xCB escape only the BIT family is implemented: any other byte
/// stops the cycle with `UnimplementedOpcode`, carrying the byte and the PC
/// it was read from.
pub proof fn lemma_prefixed_gap_unimplemented(s: CpuState, bus: BusState, op: u8)
    requires
        s.stage is FetchPrefixed,
        read_spec(bus, s.pc()) == Ok::<u8, Fault>(op),
        op & 0xC0 != 0x40,
    ensures
        step(s, bus) == Err::<(CpuState, BusState), Fault>(
            Fault::UnimplementedOpcode { opcode: op, prefixed: true, pc: s.pc() },
        ),
{
    lemma_unimplemented_opcode(s, bus, op);
}

/// A machine cycle keeps the CPU's and the bus's invariants.
pub proof fn lemma_step_wf(s: CpuState, bus: BusState)
    requires
        s.wf(),
        bus.wf(),
    ensures
        step(s, bus) matches Ok((c, b)) ==> c.wf() && b.wf(),
{
    lemma_write_spec_wf(bus);
    match s.stage {
        Stage::Fetch | Stage::FetchPrefixed => {
            let op = read_spec(bus, s.pc());
            if let Ok(op) = op {
                lemma_begun_wf(s, op, s.stage is FetchPrefixed);
            }
        },
        Stage::Read(src) => {
            if let Ok(next) = src.step(bus) {
                lemma_dispatch_wf(CpuState { stage: Stage::Read(next), ..s });
            }
        },
        _ => {},
    }
}

proof fn lemma_write_spec_wf(bus: BusState)
    requires
        bus.wf(),
    ensures
        forall|addr: u16, val: u8| #[trigger] write_spec(bus, addr, val) matches Ok(b) ==> b.wf(),
{
}

proof fn lemma_dispatch_wf(s: CpuState)
    requires
        s.wf(),
    ensures
        dispatch(s).wf(),
{
    if let Stage::Read(src) = s.stage {
        if src.is_ready() {
            let inst = decode_spec(s.opcode, s.prefixed)->Some_0;
            lemma_decoded_wf(s.opcode, s.prefixed);
            lemma_execute_regs_wf(s.regs, inst, Phase::ValueReady(value_of(src)));
        }
    }
}

proof fn lemma_begun_wf(s: CpuState, op: u8, prefixed: bool)
    requires
        s.wf(),
    ensures
        begun(s, op, prefixed) matches Ok(c) ==> c.wf(),
{
    if let Some(inst) = decode_spec(op, prefixed) {
        lemma_decoded_wf(op, prefixed);
        lemma_execute_regs_wf(s.regs, inst, Phase::InstFetch);
        let (regs, stage) = begin(s.regs, inst);
        lemma_dispatch_wf(CpuState { regs, opcode: op, stage, prefixed });
    }
}

impl Cpu {
    /// Finishes the current instruction at once when its source value is
    /// ready.
    fn dispatch_ready(&mut self)
        requires
            old(self).wf(),
        ensures
            final(self)@ == dispatch(old(self)@),
    {
        if let Stage::Read(src) = self.stage {
            if src.ready() {
                if let Some(inst) = decode(self.opcode, self.prefixed) {
                    let v = ReadVal::from_ready(src);
                    let next = if self.prefixed {
                        self.inst_prefix_step(inst, Phase::ValueReady(v))
                    } else {
                        self.inst_step(inst, Phase::ValueReady(v))
                    };
                    self.stage = next;
                }
            }
        }
    }

    /// Starts the instruction whose opcode `op` was just fetched.
    fn start(&mut self, op: u8, prefixed: bool) -> (r: Result<(), Fault>)
        requires
            old(self).wf(),
        ensures
            match begun(old(self)@, op, prefixed) {
                Ok(c) => r is Ok && final(self)@ == c,
                Err(e) => r == Err::<(), Fault>(e) && final(self)@ == old(self)@,
            },
    {
        match decode(op, prefixed) {
            None => Err(Fault::UnimplementedOpcode { opcode: op, prefixed, pc: self.get16(RegId16::PC) }),
            Some(inst) => {
                proof {
                    lemma_execute_regs_wf(self@.regs, inst, Phase::InstFetch);
                }
                self.opcode = op;
                self.prefixed = prefixed;
                let next = if prefixed {
                    self.inst_prefix_step(inst, Phase::InstFetch)
                } else {
                    self.inst_step(inst, Phase::InstFetch)
                };
                self.stage = next;
                self.dispatch_ready();
                Ok(())
            },
        }
    }

    /// Advances the machine by one machine cycle, making at most one bus
    /// access. On a fault neither the CPU nor the bus changes.
    pub fn cycle(&mut self, bus: &mut Bus) -> (r: Result<(), Fault>)
        requires
            old(self).wf(),
            old(bus).wf(),
        ensures
            final(self).wf(),
            final(bus).wf(),
            match step(old(self)@, old(bus)@) {
                Ok((c, b)) => r is Ok && final(self)@ == c && final(bus)@ == b,
                Err(e) => r == Err::<(), Fault>(e) && final(self)@ == old(self)@ && final(bus)@ == old(bus)@,
            },
    {
        proof {
            lemma_step_wf(self@, bus@);
        }
        match self.stage {
            Stage::Fetch => {
                let op = match bus.read(self.get16(RegId16::PC)) {
                    Ok(b) => b,
                    Err(e) => return Err(e),
                };
                if op == 0xCB {
                    self.add16(RegId16::PC, 1);
                    self.opcode = op;
                    self.prefixed = true;
                    self.stage = Stage::FetchPrefixed;
                    Ok(())
                } else {
                    self.start(op, false)
                }
            },
            Stage::FetchPrefixed => {
                let op = match bus.read(self.get16(RegId16::PC)) {
                    Ok(b) => b,
                    Err(e) => return Err(e),
                };
                self.start(op, true)
            },
            Stage::Read(src) => {
                let next = match src.read_step(bus) {
                    Ok(n) => n,
                    Err(e) => return Err(e),
                };
                self.stage = Stage::Read(next);
                self.dispatch_ready();
                Ok(())
            },
            Stage::Wait(_) => {
                self.stage = self.stage.wait();
                Ok(())
            },
            Stage::Write(dst) => {
                let next = match dst.write_step(bus) {
                    Ok(n) => n,
                    Err(e) => return Err(e),
                };
                self.stage = if next.ready() {
                    Stage::Fetch
                } else {
                    Stage::Write(next)
                };
                Ok(())
            },
        }
    }
}

/// The address in the high page at offset `b`.
fn as_hiaddr(b: u8) -> (r: u16)
    ensures
        r == high_page(b),
{
    0xFF00 + b as u16
}

} // verus!
