//! Decoding: splitting a raw 16-bit word into its three bit fields and
//! classifying those fields into the instruction and addressing-mode taxonomy.

use vstd::prelude::*;

verus! {

/// The instruction mnemonics of the target machine. `UNK` keeps the raw
/// 6-bit opcode field of a pattern outside the known tables, so that a
/// reserved encoding can still be shown in the listing.
#[derive(Clone, Copy, Debug, PartialEq, Eq, Structural)]
pub enum Op {
    CLR,
    MOV,
    JMP,
    RET,
    ADD,
    SUB,
    CMP,
    JSR,
    BRN,
    BRZ,
    HLT,
    NOP,
    UNK(u8),
}

/// An operand: an addressing mode together with a register number.
/// `D` is a direct register, `I` indirect, `MI` pre-decrement indirect,
/// `IP` post-increment indirect; `UNK` keeps the raw 5-bit operand field.
/// (`UNK` is unreachable from decoding, since the 2-bit mode field covers
/// all four modes; it stays for symmetry with the opcode classifier.)
#[derive(Clone, Copy, Debug, PartialEq, Eq, Structural)]
pub enum Reg {
    D(u8),
    I(u8),
    MI(u8),
    IP(u8),
    UNK(u8),
}

/// One decoded instruction: the classified opcode, the source and
/// destination operands, and the raw word kept for diagnostic rendering.
/// Every field is a pure function of `orig`; see [`decode`].
#[derive(Clone, Copy, Debug, PartialEq, Eq, Structural)]
pub struct Inst {
    pub op: Op,
    pub from: Reg,
    pub to: Reg,
    pub orig: u16,
}

/// Bits [15:10] of a word: the 6-bit opcode field.
pub open spec fn op_bits(w: u16) -> u8 {
    ((w & 0b1111_11_00000_00000) >> 10) as u8
}

/// Bits [9:5] of a word: the 5-bit source-operand field.
pub open spec fn src_bits(w: u16) -> u8 {
    ((w & 0b0000_00_11111_00000) >> 5) as u8
}

/// Bits [4:0] of a word: the 5-bit destination-operand field.
pub open spec fn dst_bits(w: u16) -> u8 {
    (w & 0b0000_00_00000_11111) as u8
}

/// The opcode table: an exact match on the 6-bit pattern first, then the
/// top-nibble families (`0b0000` is HLT, `0b0111` is NOP), then `UNK`.
pub open spec fn op_of(b: u8) -> Op {
    if b == 0b0001_00 {
        Op::CLR
    } else if b == 0b0100_00 {
        Op::MOV
    } else if b == 0b0100_01 {
        Op::JMP
    } else if b == 0b0100_10 {
        Op::RET
    } else if b == 0b0101_00 {
        Op::ADD
    } else if b == 0b0110_00 {
        Op::SUB
    } else if b == 0b0110_11 {
        Op::CMP
    } else if b == 0b1011_00 {
        Op::JSR
    } else if b == 0b1100_00 {
        Op::BRN
    } else if b == 0b1100_01 {
        Op::BRZ
    } else if (b & 0b1111_00) >> 2 == 0b0000 {
        Op::HLT
    } else if (b & 0b1111_00) >> 2 == 0b0111 {
        Op::NOP
    } else {
        Op::UNK(b)
    }
}

/// The operand table: the top 2 bits of the 5-bit field select the
/// addressing mode, the bottom 3 bits are the register number.
pub open spec fn reg_of(b: u8) -> Reg {
    let addr = (b & 0b11_000) >> 3;
    let reg = b & 0b00_111;
    if addr == 0b00 {
        Reg::D(reg)
    } else if addr == 0b01 {
        Reg::I(reg)
    } else if addr == 0b10 {
        Reg::MI(reg)
    } else if addr == 0b11 {
        Reg::IP(reg)
    } else {
        Reg::UNK(b)
    }
}

/// What one raw word decodes to. Total: every 16-bit value has exactly one
/// decoding, with the `UNK` variants covering patterns outside the tables.
pub open spec fn decode(w: u16) -> Inst {
    Inst { op: op_of(op_bits(w)), from: reg_of(src_bits(w)), to: reg_of(dst_bits(w)), orig: w }
}

/// Split a word into its three fields: the 6-bit opcode field and the two
/// 5-bit operand fields. Total: every 16-bit value decomposes.
pub fn fields(w: u16) -> (r: (u8, u8, u8))
    ensures
        r.0 == op_bits(w),
        r.1 == src_bits(w),
        r.2 == dst_bits(w),
{
    (
        ((w & 0b1111_11_00000_00000) >> 10) as u8,
        ((w & 0b0000_00_11111_00000) >> 5) as u8,
        (w & 0b0000_00_00000_11111) as u8,
    )
}

impl Op {
    /// Classify a 6-bit opcode field.
    pub fn from(op_bin: u8) -> (r: Op)
        ensures
            r == op_of(op_bin),
    {
        match op_bin {
            0b0001_00 => Op::CLR,
            0b0100_00 => Op::MOV,
            0b0100_01 => Op::JMP,
            0b0100_10 => Op::RET,
            0b0101_00 => Op::ADD,
            0b0110_00 => Op::SUB,
            0b0110_11 => Op::CMP,
            0b1011_00 => Op::JSR,
            0b1100_00 => Op::BRN,
            0b1100_01 => Op::BRZ,
            _ => match (op_bin & 0b1111_00) >> 2 {
                0b0000 => Op::HLT,
                0b0111 => Op::NOP,
                _ => Op::UNK(op_bin),
            },
        }
    }
}

impl Reg {
    /// Classify a 5-bit operand field.
    pub fn from(reg_bin: u8) -> (r: Reg)
        ensures
            r == reg_of(reg_bin),
    {
        let addr: u8 = (reg_bin & 0b11_000) >> 3;
        let reg: u8 = reg_bin & 0b00_111;
        match addr {
            0b00 => Reg::D(reg),
            0b01 => Reg::I(reg),
            0b10 => Reg::MI(reg),
            0b11 => Reg::IP(reg),
            _ => Reg::UNK(reg_bin),
        }
    }
}

impl Inst {
    /// Decode one raw word. Total over all 16-bit inputs: there is no
    /// failure case, and the result is determined by `bin` alone.
    pub fn new(bin: u16) -> (r: Inst)
        ensures
            r == decode(bin),
    {
        let op: u8 = ((bin & 0b1111_11_00000_00000) >> 10) as u8;
        let from: u8 = ((bin & 0b0000_00_11111_00000) >> 5) as u8;
        let to: u8 = (bin & 0b0000_00_00000_11111) as u8;
        Inst { op: Op::from(op), from: Reg::from(from), to: Reg::from(to), orig: bin }
    }
}

/// Decoding is total and deterministic: every 16-bit word has exactly the
/// one decoding that [`decode`] gives, and that decoding keeps the word.
pub proof fn lemma_decode_unique(w: u16, a: Inst, b: Inst)
    requires
        a == decode(w),
        b == decode(w),
    ensures
        a == b,
        a.orig == w,
{
}

/// Bitmask round-trip law: the three extracted fields, shifted back to their
/// fixed positions, reassemble to the original word.
pub proof fn lemma_fields_reassemble(w: u16)
    ensures
        ((op_bits(w) as u16) << 10) | ((src_bits(w) as u16) << 5) | (dst_bits(w) as u16) == w,
{
    assert((((((w & 0b1111_11_00000_00000) >> 10) as u8 as u16) << 10) | ((((w
        & 0b0000_00_11111_00000) >> 5) as u8 as u16) << 5) | ((w
        & 0b0000_00_00000_11111) as u8 as u16)) == w) by (bit_vector);
}

} // verus!
