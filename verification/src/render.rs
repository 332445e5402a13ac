//! Rendering: one line of assembly text per instruction, with per-opcode
//! legality checks, the `?`-marked raw-hex diagnostic for malformed
//! encodings, and one instruction of lookahead for immediate operands.

use vstd::prelude::*;

use crate::decode::{Inst, Op, Reg};
use crate::text::{bin5, bin5_str, bin6, bin6_str, digit_char, digit_str, hex4, hex4_str,
    hex_var, hex_var_str};

verus! {

/// One input line paired with its decoded instruction.
pub type Pair = (String, Inst);

/// A well-formed operand carries a register number below 8 (three bits), or,
/// for the unreachable `UNK` case, a five-bit pattern.
pub open spec fn reg_wf(r: Reg) -> bool {
    match r {
        Reg::D(n) => n < 8,
        Reg::I(n) => n < 8,
        Reg::MI(n) => n < 8,
        Reg::IP(n) => n < 8,
        Reg::UNK(b) => b < 32,
    }
}

/// A well-formed opcode carries, in the `UNK` case, a six-bit pattern.
pub open spec fn op_wf(op: Op) -> bool {
    match op {
        Op::UNK(b) => b < 64,
        _ => true,
    }
}

/// A well-formed instruction: what decoding always produces.
pub open spec fn inst_wf(i: Inst) -> bool {
    op_wf(i.op) && reg_wf(i.from) && reg_wf(i.to)
}

/// Decoding only produces well-formed instructions.
pub proof fn lemma_decode_wf(w: u16)
    ensures
        inst_wf(crate::decode::decode(w)),
{
    assert((((w & 0b1111_11_00000_00000) >> 10) as u8) < 64) by (bit_vector);
    assert((((w & 0b0000_00_11111_00000) >> 5) as u8) < 32) by (bit_vector);
    assert(((w & 0b0000_00_00000_11111) as u8) < 32) by (bit_vector);
    crate::text::lemma_u8_and_le(crate::decode::op_bits(w), 0b00_111);
    crate::text::lemma_u8_and_le(crate::decode::src_bits(w), 0b00_111);
    crate::text::lemma_u8_and_le(crate::decode::dst_bits(w), 0b00_111);
}

/// The text of a mnemonic; an unknown opcode shows its six raw bits.
pub open spec fn op_name(op: Op) -> Seq<char> {
    match op {
        Op::CLR => "CLR"@,
        Op::MOV => "MOV"@,
        Op::JMP => "JMP"@,
        Op::RET => "RET"@,
        Op::ADD => "ADD"@,
        Op::SUB => "SUB"@,
        Op::CMP => "CMP"@,
        Op::JSR => "JSR"@,
        Op::BRN => "BRN"@,
        Op::BRZ => "BRZ"@,
        Op::HLT => "HLT"@,
        Op::NOP => "NOP"@,
        Op::UNK(b) => "UNK("@ + bin6(b) + ")"@,
    }
}

/// The text of an operand; an unknown operand shows its five raw bits.
pub open spec fn reg_name(r: Reg) -> Seq<char> {
    match r {
        Reg::D(n) => "R"@ + seq![digit_char(n)],
        Reg::I(n) => "(R"@ + seq![digit_char(n)] + ")"@,
        Reg::MI(n) => "-(R"@ + seq![digit_char(n)] + ")"@,
        Reg::IP(n) => "(R"@ + seq![digit_char(n)] + ")+"@,
        Reg::UNK(b) => "UNK("@ + bin5(b) + ")"@,
    }
}

/// The generic two-operand text of an instruction: mnemonic, source
/// operand, destination operand.
pub open spec fn inst_text(i: Inst) -> Seq<char> {
    op_name(i.op) + "\t"@ + reg_name(i.from) + ", "@ + reg_name(i.to)
}

/// The control-transfer class: instructions whose destination must be the
/// program counter, direct register 7.
pub open spec fn is_branch(op: Op) -> bool {
    op == Op::JMP || op == Op::BRZ || op == Op::BRN
}

/// The generic two-operand class: every opcode without rules of its own.
pub open spec fn is_generic(op: Op) -> bool {
    !(op == Op::CLR || op == Op::RET || op == Op::HLT || is_branch(op))
}

/// When rendering consumes the following word as an immediate operand:
/// the source operand is post-increment-indirect on register 7 (the
/// program counter), and, for the control-transfer class, the destination
/// is valid (direct register 7). Never for CLR, RET or HLT.
pub open spec fn needs_next(i: Inst) -> bool {
    if is_branch(i.op) {
        i.to == Reg::D(7) && i.from == Reg::IP(7)
    } else if is_generic(i.op) {
        i.from == Reg::IP(7)
    } else {
        false
    }
}

/// Consumption law: two words are consumed exactly when the source operand
/// fetches an immediate (post-increment-indirect on register 7) for an
/// opcode class eligible for it, with, in the control-transfer class, a
/// valid destination (direct register 7).
pub proof fn lemma_consumption_law(i: Inst)
    ensures
        needs_next(i) <==> ((is_branch(i.op) && i.to == Reg::D(7) && i.from == Reg::IP(7))
            || (is_generic(i.op) && i.from == Reg::IP(7))),
{
}

/// The rendered text for one instruction. `line` is the original input
/// line; `next` is the following record, read only when [`needs_next`]
/// holds of `i`.
pub open spec fn render_text(line: Seq<char>, i: Inst, next: Option<(Seq<char>, Inst)>) -> Seq<
    char,
> {
    match i.op {
        Op::RET => if i.from == Reg::MI(6) && i.to == Reg::D(7) {
            "RET\t\t\t; "@ + line
        } else {
            "RET?("@ + hex_var(i.orig) + ")\t\t; "@ + line
        },
        Op::HLT => if i.from is D && i.to is D {
            "HLT\t\t\t; "@ + line
        } else {
            "HLT?("@ + hex_var(i.orig) + ")\t\t; "@ + line
        },
        Op::CLR => if i.from is D {
            "CLR\t"@ + reg_name(i.to) + "\t\t; "@ + line
        } else {
            "CLR?("@ + hex_var(i.orig) + ")\t\t\t; "@ + line
        },
        Op::JMP | Op::BRZ | Op::BRN => if i.to == Reg::D(7) {
            if i.from == Reg::IP(7) {
                op_name(i.op) + "\t#0x"@ + hex4((next->0).1.orig) + "\t; "@ + line + " & "@
                    + (next->0).0
            } else {
                op_name(i.op) + "\t"@ + reg_name(i.from) + "\t\t; "@ + line
            }
        } else {
            op_name(i.op) + "?("@ + hex_var(i.orig) + ")\t\t\t; "@ + line
        },
        _ => if i.from == Reg::IP(7) {
            op_name(i.op) + "\t#0x"@ + hex4((next->0).1.orig) + ", "@ + reg_name(i.to) + "\t; "@
                + line + " & "@ + (next->0).0
        } else {
            inst_text(i) + "\t; "@ + line
        },
    }
}

/// Decide whether rendering this instruction will consume the following
/// record; the executable face of [`needs_next`].
pub fn needs_next_check(i: &Inst) -> (b: bool)
    ensures
        b == needs_next(*i),
{
    match i.op {
        Op::JMP | Op::BRZ | Op::BRN => i.to == Reg::D(7) && i.from == Reg::IP(7),
        Op::CLR | Op::RET | Op::HLT => false,
        _ => i.from == Reg::IP(7),
    }
}

/// The view of the optional lookahead record.
pub open spec fn next_view(next: Option<&Pair>) -> Option<(Seq<char>, Inst)> {
    match next {
        Some(p) => Some((p.0@, p.1)),
        None => None,
    }
}

impl Op {
    /// The mnemonic as text.
    pub fn fmt(&self) -> (r: String)
        requires
            op_wf(*self),
        ensures
            r@ == op_name(*self),
    {
        match self {
            Op::CLR => String::from_str("CLR"),
            Op::MOV => String::from_str("MOV"),
            Op::JMP => String::from_str("JMP"),
            Op::RET => String::from_str("RET"),
            Op::ADD => String::from_str("ADD"),
            Op::SUB => String::from_str("SUB"),
            Op::CMP => String::from_str("CMP"),
            Op::JSR => String::from_str("JSR"),
            Op::BRN => String::from_str("BRN"),
            Op::BRZ => String::from_str("BRZ"),
            Op::HLT => String::from_str("HLT"),
            Op::NOP => String::from_str("NOP"),
            Op::UNK(b) => {
                let mut s = String::from_str("UNK(");
                s.append(bin6_str(*b).as_str());
                s.append(")");
                s
            },
        }
    }
}

impl Reg {
    /// The operand as text.
    pub fn fmt(&self) -> (r: String)
        requires
            reg_wf(*self),
        ensures
            r@ == reg_name(*self),
    {
        match self {
            Reg::D(n) => {
                let mut s = String::from_str("R");
                s.append(digit_str(*n));
                s
            },
            Reg::I(n) => {
                let mut s = String::from_str("(R");
                s.append(digit_str(*n));
                s.append(")");
                s
            },
            Reg::MI(n) => {
                let mut s = String::from_str("-(R");
                s.append(digit_str(*n));
                s.append(")");
                s
            },
            Reg::IP(n) => {
                let mut s = String::from_str("(R");
                s.append(digit_str(*n));
                s.append(")+");
                s
            },
            Reg::UNK(b) => {
                let mut s = String::from_str("UNK(");
                s.append(bin5_str(*b).as_str());
                s.append(")");
                s
            },
        }
    }
}

impl Inst {
    /// The generic two-operand text: mnemonic, source, destination.
    pub fn fmt(&self) -> (r: String)
        requires
            inst_wf(*self),
        ensures
            r@ == inst_text(*self),
    {
        let mut s = self.op.fmt();
        s.append("\t");
        s.append(self.from.fmt().as_str());
        s.append(", ");
        s.append(self.to.fmt().as_str());
        s
    }
}

/// Render one instruction as one line of the listing, with its consumption
/// count: 2 when the following record was consumed as an immediate operand,
/// else 1. The caller must supply `next` whenever [`needs_next`] holds of
/// the current instruction; inside that contract the function is total.
pub fn to_asm(cur: &Pair, next: Option<&Pair>) -> (r: (String, usize))
    requires
        inst_wf(cur.1),
        needs_next(cur.1) ==> next is Some,
    ensures
        r.0@ == render_text(cur.0@, cur.1, next_view(next)),
        r.1 == (if needs_next(cur.1) {
            2int
        } else {
            1int
        }),
{
    let line: &str = cur.0.as_str();
    let inst = &cur.1;

    match inst.op {
        Op::RET => {
            if matches!(inst.from, Reg::MI(6)) && matches!(inst.to, Reg::D(7)) {
                let mut s = String::from_str("RET\t\t\t; ");
                s.append(line);
                (s, 1)
            } else {
                let mut s = String::from_str("RET?(");
                s.append(hex_var_str(inst.orig).as_str());
                s.append(")\t\t; ");
                s.append(line);
                (s, 1)
            }
        },
        Op::HLT => {
            if matches!(inst.from, Reg::D(_)) && matches!(inst.to, Reg::D(_)) {
                let mut s = String::from_str("HLT\t\t\t; ");
                s.append(line);
                (s, 1)
            } else {
                let mut s = String::from_str("HLT?(");
                s.append(hex_var_str(inst.orig).as_str());
                s.append(")\t\t; ");
                s.append(line);
                (s, 1)
            }
        },
        Op::CLR => {
            if matches!(inst.from, Reg::D(_)) {
                let mut s = String::from_str("CLR\t");
                s.append(inst.to.fmt().as_str());
                s.append("\t\t; ");
                s.append(line);
                (s, 1)
            } else {
                let mut s = String::from_str("CLR?(");
                s.append(hex_var_str(inst.orig).as_str());
                s.append(")\t\t\t; ");
                s.append(line);
                (s, 1)
            }
        },
        Op::JMP | Op::BRZ | Op::BRN => {
            if matches!(inst.to, Reg::D(7)) {
                if matches!(inst.from, Reg::IP(7)) {
                    let p: &Pair = next.unwrap();
                    let mut s = inst.op.fmt();
                    s.append("\t#0x");
                    s.append(hex4_str(p.1.orig).as_str());
                    s.append("\t; ");
                    s.append(line);
                    s.append(" & ");
                    s.append(p.0.as_str());
                    (s, 2)
                } else {
                    let mut s = inst.op.fmt();
                    s.append("\t");
                    s.append(inst.from.fmt().as_str());
                    s.append("\t\t; ");
                    s.append(line);
                    (s, 1)
                }
            } else {
                let mut s = inst.op.fmt();
                s.append("?(");
                s.append(hex_var_str(inst.orig).as_str());
                s.append(")\t\t\t; ");
                s.append(line);
                (s, 1)
            }
        },
        _ => {
            if matches!(inst.from, Reg::IP(7)) {
                let p: &Pair = next.unwrap();
                let mut s = inst.op.fmt();
                s.append("\t#0x");
                s.append(hex4_str(p.1.orig).as_str());
                s.append(", ");
                s.append(inst.to.fmt().as_str());
                s.append("\t; ");
                s.append(line);
                s.append(" & ");
                s.append(p.0.as_str());
                (s, 2)
            } else {
                let mut s = cur.1.fmt();
                s.append("\t; ");
                s.append(line);
                (s, 1)
            }
        },
    }
}

} // verus!
