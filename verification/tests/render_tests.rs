use disasm16::{to_asm, Inst, Op, Reg};

fn pair(line: &str, word: u16) -> (String, Inst) {
    (String::from(line), Inst::new(word))
}

#[test]
fn ret_valid_renders_plain() {
    // 0b010010_10110_00111: RET, source -(R6), destination R7
    let cur = pair("0010:4AC7", 0x4AC7);
    let (text, n) = to_asm(&cur, None);
    assert_eq!(text, "RET\t\t\t; 0010:4AC7");
    assert_eq!(n, 1);
}

#[test]
fn ret_bad_destination_renders_diagnostic() {
    // RET with destination R3 instead of R7
    let cur = pair("0010:4AC3", 0x4AC3);
    let (text, n) = to_asm(&cur, None);
    assert_eq!(text, "RET?(4AC3)\t\t; 0010:4AC3");
    assert_eq!(n, 1);
}

#[test]
fn ret_bad_source_renders_diagnostic() {
    // RET with source (R7)+ instead of -(R6): not an immediate fetch
    let cur = pair("0010:4BE7", 0x4BE7);
    let (text, n) = to_asm(&cur, None);
    assert_eq!(text, "RET?(4BE7)\t\t; 0010:4BE7");
    assert_eq!(n, 1);
}

#[test]
fn hlt_valid_any_direct_registers() {
    // zero-family opcode 0b000010, source R1, destination R2
    let cur = pair("0000:0822", 0x0822);
    let (text, n) = to_asm(&cur, None);
    assert_eq!(text, "HLT\t\t\t; 0000:0822");
    assert_eq!(n, 1);
}

#[test]
fn hlt_indirect_source_renders_diagnostic() {
    // HLT with source (R0)
    let cur = pair("0000:0100", 0x0100);
    let (text, n) = to_asm(&cur, None);
    assert_eq!(text, "HLT?(100)\t\t; 0000:0100");
    assert_eq!(n, 1);
}

#[test]
fn clr_valid_renders_destination_only() {
    // CLR, source R0, destination R5
    let cur = pair("0000:1005", 0x1005);
    let (text, n) = to_asm(&cur, None);
    assert_eq!(text, "CLR\tR5\t\t; 0000:1005");
    assert_eq!(n, 1);
}

#[test]
fn clr_indirect_source_renders_diagnostic() {
    // CLR with source (R0)
    let cur = pair("0000:1105", 0x1105);
    let (text, n) = to_asm(&cur, None);
    assert_eq!(text, "CLR?(1105)\t\t\t; 0000:1105");
    assert_eq!(n, 1);
}

#[test]
fn jmp_immediate_consumes_next() {
    let cur = pair("0010:47E7", 0x47E7);
    let nxt = pair("0010:0005", 0x0005);
    let (text, n) = to_asm(&cur, Some(&nxt));
    assert_eq!(text, "JMP\t#0x0005\t; 0010:47E7 & 0010:0005");
    assert_eq!(n, 2);
}

#[test]
fn jmp_direct_source_is_target() {
    // JMP, source R2, destination R7
    let cur = pair("0010:4447", 0x4447);
    let (text, n) = to_asm(&cur, None);
    assert_eq!(text, "JMP\tR2\t\t; 0010:4447");
    assert_eq!(n, 1);
}

#[test]
fn jmp_bad_destination_renders_diagnostic() {
    // JMP with destination R3 instead of R7
    let cur = pair("0010:4443", 0x4443);
    let (text, n) = to_asm(&cur, None);
    assert_eq!(text, "JMP?(4443)\t\t\t; 0010:4443");
    assert_eq!(n, 1);
}

#[test]
fn brz_immediate_consumes_next() {
    // 0b110001_11111_00111: BRZ, source (R7)+, destination R7
    let cur = pair("0010:C7E7", 0xC7E7);
    let nxt = pair("0010:1234", 0x1234);
    let (text, n) = to_asm(&cur, Some(&nxt));
    assert_eq!(text, "BRZ\t#0x1234\t; 0010:C7E7 & 0010:1234");
    assert_eq!(n, 2);
}

#[test]
fn mov_immediate_consumes_next() {
    // MOV, source (R7)+, destination R1
    let cur = pair("0001:43E1", 0x43E1);
    let nxt = pair("0002:00FF", 0x00FF);
    let (text, n) = to_asm(&cur, Some(&nxt));
    assert_eq!(text, "MOV\t#0x00FF, R1\t; 0001:43E1 & 0002:00FF");
    assert_eq!(n, 2);
}

#[test]
fn mov_generic_two_operands() {
    // MOV, source R2, destination (R3)
    let cur = pair("0001:404B", 0x404B);
    let (text, n) = to_asm(&cur, None);
    assert_eq!(text, "MOV\tR2, (R3)\t; 0001:404B");
    assert_eq!(n, 1);
}

#[test]
fn nop_renders_as_generic() {
    // seven-family opcode 0b011100, source R1, destination R2
    let cur = pair("0001:7022", 0x7022);
    let (text, n) = to_asm(&cur, None);
    assert_eq!(text, "NOP\tR1, R2\t; 0001:7022");
    assert_eq!(n, 1);
}

#[test]
fn unknown_opcode_renders_pattern() {
    // opcode 0b100000 is in no table and no family
    let cur = pair("0001:8000", 0x8000);
    let (text, n) = to_asm(&cur, None);
    assert_eq!(text, "UNK(100000)\tR0, R0\t; 0001:8000");
    assert_eq!(n, 1);
}

#[test]
fn unknown_opcode_immediate_consumes_next() {
    // an unknown opcode still follows the generic immediate convention:
    // 0b100000_11111_00000, source (R7)+
    let cur = pair("0001:83E0", 0x83E0);
    let nxt = pair("0002:0001", 0x0001);
    let (text, n) = to_asm(&cur, Some(&nxt));
    assert_eq!(text, "UNK(100000)\t#0x0001, R0\t; 0001:83E0 & 0002:0001");
    assert_eq!(n, 2);
}

#[test]
fn op_fmt_mnemonics() {
    assert_eq!(Op::CLR.fmt(), "CLR");
    assert_eq!(Op::MOV.fmt(), "MOV");
    assert_eq!(Op::JMP.fmt(), "JMP");
    assert_eq!(Op::RET.fmt(), "RET");
    assert_eq!(Op::ADD.fmt(), "ADD");
    assert_eq!(Op::SUB.fmt(), "SUB");
    assert_eq!(Op::CMP.fmt(), "CMP");
    assert_eq!(Op::JSR.fmt(), "JSR");
    assert_eq!(Op::BRN.fmt(), "BRN");
    assert_eq!(Op::BRZ.fmt(), "BRZ");
    assert_eq!(Op::HLT.fmt(), "HLT");
    assert_eq!(Op::NOP.fmt(), "NOP");
    assert_eq!(Op::UNK(0b101010).fmt(), "UNK(101010)");
}

#[test]
fn reg_fmt_addressing_modes() {
    assert_eq!(Reg::D(3).fmt(), "R3");
    assert_eq!(Reg::I(2).fmt(), "(R2)");
    assert_eq!(Reg::MI(6).fmt(), "-(R6)");
    assert_eq!(Reg::IP(7).fmt(), "(R7)+");
    assert_eq!(Reg::UNK(0b10101).fmt(), "UNK(10101)");
}

#[test]
fn inst_fmt_generic_shape() {
    let i = Inst::new(0x404B);
    assert_eq!(i.fmt(), "MOV\tR2, (R3)");
}

#[test]
fn consumption_is_two_only_for_immediate_fetch() {
    // every opcode class, source (R7)+, valid destination where required
    let two_word = [0x47E7u16, 0xC7E7, 0x43E1, 0x53E4, 0x83E0];
    for w in two_word {
        let cur = pair("l1", w);
        let nxt = pair("l2", 0x0000);
        let (_, n) = to_asm(&cur, Some(&nxt));
        assert_eq!(n, 2);
    }
    // CLR, RET and HLT never fetch an immediate, nor does a branch with a
    // bad destination or a generic instruction with another source mode
    let one_word = [0x13E0u16, 0x4BE7, 0x03E0, 0x4443, 0x404B];
    for w in one_word {
        let cur = pair("l1", w);
        let nxt = pair("l2", 0x0000);
        let (_, n) = to_asm(&cur, Some(&nxt));
        assert_eq!(n, 1);
    }
}
