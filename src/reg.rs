use vstd::prelude::*;

verus! {

/// The high byte of a 16-bit word.
pub open spec fn hi_byte(v: u16) -> u8 {
    (v as int / 256) as u8
}

/// The low byte of a 16-bit word.
pub open spec fn lo_byte(v: u16) -> u8 {
    (v as int % 256) as u8
}

/// The word whose high byte is `hi` and whose low byte is `lo`.
pub open spec fn join_bytes(hi: u8, lo: u8) -> u16 {
    (hi as int * 256 + lo as int) as u16
}

proof fn lemma_byte_ops(v: u16, b: u8)
    ensures
        (v >> 8u16) as u8 == hi_byte(v),
        v as u8 == lo_byte(v),
        (v & 0x00FFu16) | ((b as u16) << 8u16) == join_bytes(b, lo_byte(v)),
        (v & 0xFF00u16) | (b as u16) == join_bytes(hi_byte(v), b),
{
    let w = b as u16;
    assert((v >> 8u16) as u8 == (v / 256u16) as u8) by (bit_vector);
    assert(v as u8 == (v % 256u16) as u8) by (bit_vector);
    assert((v & 0x00FFu16) | (w << 8u16) == w * 256u16 + v % 256u16 && w * 256u16 + v % 256u16
        <= 0xFFFFu16) by (bit_vector)
        requires
            w <= 0xFFu16,
    ;
    assert((v & 0xFF00u16) | w == (v / 256u16) * 256u16 + w && (v / 256u16) * 256u16 + w
        <= 0xFFFFu16) by (bit_vector)
        requires
            w <= 0xFFu16,
    ;
}

/// Splitting a word into its bytes and joining them again is the identity,
/// and joining two bytes gives `hi * 256 + lo`.
pub proof fn lemma_join_split(v: u16, hi: u8, lo: u8)
    ensures
        join_bytes(hi_byte(v), lo_byte(v)) == v,
        join_bytes(hi, lo) == hi * 256 + lo,
        hi_byte(join_bytes(hi, lo)) == hi,
        lo_byte(join_bytes(hi, lo)) == lo,
{
}

/// One 16-bit register pair.
#[derive(Clone, Copy)]
pub struct Reg16 {
    value: u16,
}

impl View for Reg16 {
    type V = u16;

    closed spec fn view(&self) -> u16 {
        self.value
    }
}

impl Reg16 {
    pub fn new(v: u16) -> (r: Self)
        ensures
            r@ == v,
    {
        Reg16 { value: v }
    }

    pub fn get(&self) -> (r: u16)
        ensures
            r == self@,
    {
        self.value
    }

    pub fn set(&mut self, v: u16)
        ensures
            final(self)@ == v,
    {
        self.value = v;
    }

    /// The low-byte view; writes through it land in this register.
    pub fn lo(&mut self) -> (r: Reg8<'_>)
        ensures
            !r.hi,
            r.word() == old(self)@,
            final(self)@ == (*final(r.reg))@,
    {
        Reg8 { reg: self, hi: false }
    }

    /// The high-byte view; writes through it land in this register.
    pub fn hi(&mut self) -> (r: Reg8<'_>)
        ensures
            r.hi,
            r.word() == old(self)@,
            final(self)@ == (*final(r.reg))@,
    {
        Reg8 { reg: self, hi: true }
    }
}

/// An 8-bit view of one half of a [`Reg16`].
pub struct Reg8<'a> {
    /// The register pair being viewed.
    pub reg: &'a mut Reg16,
    /// Whether the view selects the high byte.
    pub hi: bool,
}

impl<'a> Reg8<'a> {
    /// The current value of the viewed register.
    pub open spec fn word(&self) -> u16 {
        (*self.reg)@
    }

    pub open spec fn view(&self) -> u8 {
        if self.hi {
            hi_byte(self.word())
        } else {
            lo_byte(self.word())
        }
    }

    pub fn get(&self) -> (r: u8)
        ensures
            r == self.view(),
    {
        let v = self.reg.get();
        proof {
            lemma_byte_ops(v, 0);
        }
        if self.hi {
            (v >> 8) as u8
        } else {
            v as u8
        }
    }

    /// Replaces the viewed byte, keeping the other half of the register.
    pub fn set(&mut self, b: u8)
        ensures
            final(self).hi == old(self).hi,
            *final(final(self).reg) == *final(old(self).reg),
            final(self).word() == (if old(self).hi {
                join_bytes(b, lo_byte(old(self).word()))
            } else {
                join_bytes(hi_byte(old(self).word()), b)
            }),
    {
        let v = self.reg.get();
        proof {
            lemma_byte_ops(v, b);
        }
        let new = if self.hi {
            (v & 0x00FF) | ((b as u16) << 8)
        } else {
            (v & 0xFF00) | (b as u16)
        };
        self.reg.set(new);
    }
}

/// Which half of a register pair an 8-bit register occupies.
#[derive(Clone, Copy, Debug, PartialEq, Eq, Structural)]
pub enum HiLo {
    Hi,
    Lo,
}

/// The eight 8-bit registers; `F` holds the flags.
#[derive(Clone, Copy, Debug, PartialEq, Eq, Structural)]
pub enum RegId8 {
    B,
    C,
    D,
    E,
    H,
    L,
    A,
    F,
}

/// The six register pairs.
#[derive(Clone, Copy, Debug, PartialEq, Eq, Structural)]
pub enum RegId16 {
    BC,
    DE,
    HL,
    AF,
    SP,
    PC,
}

/// The 8-bit register that operand field `idx` names (6 names memory at HL
/// and has no register).
pub open spec fn reg8_of_index(idx: u8) -> RegId8 {
    match idx {
        0 => RegId8::B,
        1 => RegId8::C,
        2 => RegId8::D,
        3 => RegId8::E,
        4 => RegId8::H,
        5 => RegId8::L,
        _ => RegId8::A,
    }
}

/// The pair that a two-bit register field names in loads and increments.
pub open spec fn reg16_of_index(idx: u8) -> RegId16 {
    match idx {
        0 => RegId16::BC,
        1 => RegId16::DE,
        2 => RegId16::HL,
        _ => RegId16::SP,
    }
}

impl RegId8 {
    /// The register that operand field `idx` names; 6 (memory at HL) and
    /// values past 7 name none.
    pub fn new(idx: u8) -> (r: Self)
        requires
            idx < 8,
            idx != 6,
        ensures
            r == reg8_of_index(idx),
    {
        match idx {
            0 => RegId8::B,
            1 => RegId8::C,
            2 => RegId8::D,
            3 => RegId8::E,
            4 => RegId8::H,
            5 => RegId8::L,
            7 => RegId8::A,
            _ => unreached(),
        }
    }

    /// The pair that holds this register.
    pub open spec fn pair(self) -> RegId16 {
        match self {
            RegId8::B | RegId8::C => RegId16::BC,
            RegId8::D | RegId8::E => RegId16::DE,
            RegId8::H | RegId8::L => RegId16::HL,
            RegId8::A | RegId8::F => RegId16::AF,
        }
    }

    /// Whether this register is the high byte of its pair.
    pub open spec fn is_high(self) -> bool {
        match self {
            RegId8::B | RegId8::D | RegId8::H | RegId8::A => true,
            _ => false,
        }
    }

    pub fn resides(&self) -> (r: RegId16)
        ensures
            r == self.pair(),
    {
        match self {
            RegId8::B | RegId8::C => RegId16::BC,
            RegId8::D | RegId8::E => RegId16::DE,
            RegId8::H | RegId8::L => RegId16::HL,
            RegId8::A | RegId8::F => RegId16::AF,
        }
    }

    pub fn hilo(&self) -> (r: HiLo)
        ensures
            (r == HiLo::Hi) == self.is_high(),
    {
        match self {
            RegId8::B | RegId8::D | RegId8::H | RegId8::A => HiLo::Hi,
            RegId8::C | RegId8::E | RegId8::L | RegId8::F => HiLo::Lo,
        }
    }
}

impl RegId16 {
    /// The pair that a two-bit register field names in loads and
    /// increments.
    pub fn new(idx: u8) -> (r: Self)
        requires
            idx < 4,
        ensures
            r == reg16_of_index(idx),
    {
        match idx {
            0 => RegId16::BC,
            1 => RegId16::DE,
            2 => RegId16::HL,
            3 => RegId16::SP,
            _ => unreached(),
        }
    }

    /// Position of this pair in a register file.
    pub open spec fn index(self) -> int {
        match self {
            RegId16::BC => 0,
            RegId16::DE => 1,
            RegId16::HL => 2,
            RegId16::AF => 3,
            RegId16::SP => 4,
            RegId16::PC => 5,
        }
    }

    pub fn as_index(&self) -> (r: usize)
        ensures
            r == self.index(),
    {
        match self {
            RegId16::BC => 0,
            RegId16::DE => 1,
            RegId16::HL => 2,
            RegId16::AF => 3,
            RegId16::SP => 4,
            RegId16::PC => 5,
        }
    }
}

/// `x` modulo 65536.
pub open spec fn wrap16(x: int) -> u16 {
    (x % 0x10000) as u16
}

/// A register file: the six pairs' words, by [`RegId16::index`].
pub open spec fn reg16_in(regs: Seq<u16>, id: RegId16) -> u16 {
    regs[id.index()]
}

/// `regs` with pair `id` holding `v`.
pub open spec fn with_reg16(regs: Seq<u16>, id: RegId16, v: u16) -> Seq<u16> {
    regs.update(id.index(), v)
}

/// `regs` with pair `id` moved by `delta`, modulo 65536.
pub open spec fn moved_reg16(regs: Seq<u16>, id: RegId16, delta: int) -> Seq<u16> {
    with_reg16(regs, id, wrap16(reg16_in(regs, id) + delta))
}

pub open spec fn reg8_in(regs: Seq<u16>, id: RegId8) -> u8 {
    if id.is_high() {
        hi_byte(reg16_in(regs, id.pair()))
    } else {
        lo_byte(reg16_in(regs, id.pair()))
    }
}

/// `regs` with 8-bit register `id` holding `b` and the other half of its
/// pair kept.
pub open spec fn with_reg8(regs: Seq<u16>, id: RegId8, b: u8) -> Seq<u16> {
    let w = reg16_in(regs, id.pair());
    with_reg16(
        regs,
        id.pair(),
        if id.is_high() {
            join_bytes(b, lo_byte(w))
        } else {
            join_bytes(hi_byte(w), b)
        },
    )
}

/// A byte written through an 8-bit register reads back unchanged, and no
/// other 8-bit register changes.
pub proof fn lemma_reg8_write_read(regs: Seq<u16>, id: RegId8, b: u8)
    requires
        regs.len() == 6,
    ensures
        with_reg8(regs, id, b).len() == 6,
        reg8_in(with_reg8(regs, id, b), id) == b,
        forall|other: RegId8| other != id ==> reg8_in(with_reg8(regs, id, b), other) == reg8_in(regs, other),
{
    let w = reg16_in(regs, id.pair());
    lemma_join_split(w, b, lo_byte(w));
    lemma_join_split(w, hi_byte(w), b);
}

/// A second write to an 8-bit register replaces the first.
pub proof fn lemma_reg8_overwrite(regs: Seq<u16>, id: RegId8, b1: u8, b2: u8)
    requires
        regs.len() == 6,
    ensures
        with_reg8(with_reg8(regs, id, b1), id, b2) == with_reg8(regs, id, b2),
{
    let w = reg16_in(regs, id.pair());
    lemma_join_split(w, b1, lo_byte(w));
    lemma_join_split(w, hi_byte(w), b1);
    assert(with_reg8(with_reg8(regs, id, b1), id, b2) =~= with_reg8(regs, id, b2));
}

/// Writing `hi` and `lo` through the two 8-bit views of a pair, in either
/// order, leaves the pair reading `hi * 256 + lo`; every other pair keeps its
/// word.
pub proof fn lemma_pair_from_views(regs: Seq<u16>, high: RegId8, low: RegId8, hi: u8, lo: u8)
    requires
        regs.len() == 6,
        high.is_high(),
        !low.is_high(),
        high.pair() == low.pair(),
    ensures
        reg16_in(with_reg8(with_reg8(regs, high, hi), low, lo), high.pair()) == hi * 256 + lo,
        reg16_in(with_reg8(with_reg8(regs, low, lo), high, hi), high.pair()) == hi * 256 + lo,
        forall|other: RegId16|
            other != high.pair() ==> reg16_in(with_reg8(with_reg8(regs, high, hi), low, lo), other)
                == reg16_in(regs, other) && reg16_in(
                with_reg8(with_reg8(regs, low, lo), high, hi),
                other,
            ) == reg16_in(regs, other),
{
    let w = reg16_in(regs, high.pair());
    lemma_join_split(w, hi, lo_byte(w));
    lemma_join_split(join_bytes(hi, lo_byte(w)), hi, lo);
    lemma_join_split(w, hi_byte(w), lo);
    lemma_join_split(join_bytes(hi_byte(w), lo), hi, lo);
}

} // verus!
