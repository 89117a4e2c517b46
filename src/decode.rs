use vstd::prelude::*;
use crate::reg::{reg16_of_index, RegId16};

verus! {

/// An implemented instruction, with the operand fields its opcode carries.
/// An 8-bit operand slot is 0..=7: B, C, D, E, H, L, memory at HL, A.
#[derive(Clone, Copy, Debug, PartialEq, Eq, Structural)]
pub enum Inst {
    /// `LD r16, n16`
    LdR16Imm(RegId16),
    /// `LD [r16], A` through BC, DE, HL (then incremented) or HL (then
    /// decremented), by mode 0..=3.
    LdIndA(u8),
    /// `LD A, [r16]`, modes as for `LdIndA`.
    LdAInd(u8),
    /// `XOR A, r/m8`
    XorA(u8),
    /// `LD r/m8, r/m8`
    LdR8R8 { dst: u8, src: u8 },
    /// `LD [0xFF00 + n8], A`
    LdhImmA,
    /// `LDH [C], A`
    LdhCA,
    /// `LD r/m8, n8`
    LdR8Imm(u8),
    /// `INC r/m8`
    IncR8(u8),
    /// `INC r16`
    IncR16(RegId16),
    /// `JR cc, e8`: tests the carry flag when `carry`, else the zero flag, and
    /// branches when the flag is set if `when_set`, clear otherwise.
    Jr { carry: bool, when_set: bool },
    /// `PUSH r16`
    Push(RegId16),
    /// `BIT n3, r/m8` (after the 0xCB escape)
    Bit { bit: u8, slot: u8 },
}

impl Inst {
    /// Every operand field is in range.
    pub open spec fn wf(self) -> bool {
        match self {
            Inst::LdIndA(m) | Inst::LdAInd(m) => m < 4,
            Inst::XorA(s) | Inst::LdR8Imm(s) | Inst::IncR8(s) => s < 8,
            Inst::LdR8R8 { dst, src } => dst < 8 && src < 8,
            Inst::Bit { bit, slot } => bit < 8 && slot < 8,
            Inst::LdR16Imm(r) | Inst::IncR16(r) => r != RegId16::AF && r != RegId16::PC,
            Inst::Push(r) => r != RegId16::PC,
            _ => true,
        }
    }
}

/// The pair that `PUSH` names by a two-bit field.
pub open spec fn push_pair_of_index(idx: u8) -> RegId16 {
    match idx {
        0 => RegId16::BC,
        1 => RegId16::DE,
        2 => RegId16::HL,
        _ => RegId16::AF,
    }
}

/// The instruction table: each family is a mask and pattern on the opcode,
/// tried in this order; the first match wins.
pub open spec fn decode_spec(opcode: u8, prefixed: bool) -> Option<Inst> {
    let y = (opcode >> 3u8) & 7u8;
    let z = opcode & 7u8;
    let p = (opcode >> 4u8) & 3u8;
    if prefixed {
        if opcode & 0xC0 == 0x40 {
            Some(Inst::Bit { bit: y, slot: z })
        } else {
            None
        }
    } else if opcode & 0xCF == 0x01 {
        Some(Inst::LdR16Imm(reg16_of_index(p)))
    } else if opcode & 0xCF == 0x02 {
        Some(Inst::LdIndA(p))
    } else if opcode & 0xCF == 0x0A {
        Some(Inst::LdAInd(p))
    } else if opcode & 0xF8 == 0xA8 {
        Some(Inst::XorA(z))
    } else if opcode & 0xC0 == 0x40 && opcode != 0x76 {
        Some(Inst::LdR8R8 { dst: y, src: z })
    } else if opcode == 0xE0 {
        Some(Inst::LdhImmA)
    } else if opcode == 0xE2 {
        Some(Inst::LdhCA)
    } else if opcode & 0xC7 == 0x06 {
        Some(Inst::LdR8Imm(y))
    } else if opcode & 0xC7 == 0x04 {
        Some(Inst::IncR8(y))
    } else if opcode & 0xCF == 0x03 {
        Some(Inst::IncR16(reg16_of_index(p)))
    } else if opcode & 0xD7 == 0x00 {
        Some(Inst::Jr { carry: opcode & 0x10 != 0, when_set: opcode & 0x08 != 0 })
    } else if opcode & 0xCF == 0xC5 {
        Some(Inst::Push(push_pair_of_index(p)))
    } else {
        None
    }
}

proof fn lemma_fields_in_range(opcode: u8)
    by (bit_vector)
    ensures
        (opcode >> 3u8) & 7u8 < 8,
        opcode & 7u8 < 8,
        (opcode >> 4u8) & 3u8 < 4,
{
}

/// Every instruction the table yields has its operand fields in range.
pub proof fn lemma_decoded_wf(opcode: u8, prefixed: bool)
    ensures
        decode_spec(opcode, prefixed) matches Some(inst) ==> inst.wf(),
{
    lemma_fields_in_range(opcode);
}

fn push_pair(idx: u8) -> (r: RegId16)
    requires
        idx < 4,
    ensures
        r == push_pair_of_index(idx),
{
    match idx {
        0 => RegId16::BC,
        1 => RegId16::DE,
        2 => RegId16::HL,
        3 => RegId16::AF,
        _ => unreached(),
    }
}

/// Looks `opcode` up in the instruction table; `None` where no family
/// matches.
pub fn decode(opcode: u8, prefixed: bool) -> (r: Option<Inst>)
    ensures
        r == decode_spec(opcode, prefixed),
        r matches Some(inst) ==> inst.wf(),
{
    proof {
        lemma_fields_in_range(opcode);
    }
    let y = (opcode >> 3) & 7;
    let z = opcode & 7;
    let p = (opcode >> 4) & 3;
    if prefixed {
        if opcode & 0xC0 == 0x40 {
            Some(Inst::Bit { bit: y, slot: z })
        } else {
            None
        }
    } else if opcode & 0xCF == 0x01 {
        Some(Inst::LdR16Imm(RegId16::new(p)))
    } else if opcode & 0xCF == 0x02 {
        Some(Inst::LdIndA(p))
    } else if opcode & 0xCF == 0x0A {
        Some(Inst::LdAInd(p))
    } else if opcode & 0xF8 == 0xA8 {
        Some(Inst::XorA(z))
    } else if opcode & 0xC0 == 0x40 && opcode != 0x76 {
        Some(Inst::LdR8R8 { dst: y, src: z })
    } else if opcode == 0xE0 {
        Some(Inst::LdhImmA)
    } else if opcode == 0xE2 {
        Some(Inst::LdhCA)
    } else if opcode & 0xC7 == 0x06 {
        Some(Inst::LdR8Imm(y))
    } else if opcode & 0xC7 == 0x04 {
        Some(Inst::IncR8(y))
    } else if opcode & 0xCF == 0x03 {
        Some(Inst::IncR16(RegId16::new(p)))
    } else if opcode & 0xD7 == 0x00 {
        Some(Inst::Jr { carry: opcode & 0x10 != 0, when_set: opcode & 0x08 != 0 })
    } else if opcode & 0xCF == 0xC5 {
        Some(Inst::Push(push_pair(p)))
    } else {
        None
    }
}

} // verus!
