use disasm16::{convert, Inst, Op, Reg};

#[test]
fn parses_second_field_as_hex() {
    let i = convert("0010:1120").unwrap();
    assert_eq!(i, Inst::new(0x1120));
    assert_eq!(i.op, Op::CLR);
    assert_eq!(i.from, Reg::I(1));
    assert_eq!(i.to, Reg::D(0));
}

#[test]
fn hex_is_case_insensitive() {
    assert_eq!(convert("x:aB3f").unwrap().orig, 0xAB3F);
    assert_eq!(convert("x:FFFF").unwrap().orig, 0xFFFF);
    assert_eq!(convert("x:ffff").unwrap().orig, 0xFFFF);
}

#[test]
fn fields_after_the_second_colon_are_ignored() {
    assert_eq!(convert("a:12:zzz").unwrap().orig, 0x0012);
    assert_eq!(convert(":47E7:comment:more").unwrap().orig, 0x47E7);
}

#[test]
fn prefix_before_first_colon_is_arbitrary() {
    assert_eq!(convert("any prefix at all:0005").unwrap().orig, 0x0005);
    assert_eq!(convert(":0005").unwrap().orig, 0x0005);
}

#[test]
fn line_without_colon_is_rejected() {
    assert!(convert("0010 1120").is_none());
    assert!(convert("").is_none());
    assert!(convert("abcd").is_none());
}

#[test]
fn empty_second_field_is_rejected() {
    assert!(convert("a:").is_none());
    assert!(convert("a::").is_none());
    assert!(convert("a::5").is_none());
}

#[test]
fn leading_plus_sign_is_accepted() {
    assert_eq!(convert("a:+5").unwrap().orig, 0x0005);
    assert_eq!(convert("a:+FFFF").unwrap().orig, 0xFFFF);
}

#[test]
fn lone_or_repeated_sign_is_rejected() {
    assert!(convert("a:+").is_none());
    assert!(convert("a:++5").is_none());
    assert!(convert("a:-5").is_none());
}

#[test]
fn non_hex_characters_are_rejected() {
    assert!(convert("a:0x12").is_none());
    assert!(convert("a: 12").is_none());
    assert!(convert("a:12 ").is_none());
    assert!(convert("a:12g4").is_none());
}

#[test]
fn value_must_fit_sixteen_bits() {
    assert!(convert("a:10000").is_none());
    assert!(convert("a:FFFF0").is_none());
    assert_eq!(convert("a:0000FFFF").unwrap().orig, 0xFFFF);
    assert_eq!(convert("a:00000").unwrap().orig, 0x0000);
}
