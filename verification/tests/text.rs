use address_labels::text::{
    characters, comes_before, contains, push_decimal, push_text, same_text, starts_with, substitute,
};

fn decimal_of(n: usize) -> String {
    let mut out = String::new();
    push_decimal(&mut out, n);
    out
}

#[test]
fn decimal_notation_has_no_leading_zeros() {
    assert_eq!(decimal_of(0), "0");
    assert_eq!(decimal_of(7), "7");
    assert_eq!(decimal_of(10), "10");
    assert_eq!(decimal_of(25), "25");
    assert_eq!(decimal_of(100000), "100000");
    assert_eq!(decimal_of(1234567890), "1234567890");
    assert_eq!(decimal_of(usize::MAX), usize::MAX.to_string());
}

#[test]
fn push_decimal_and_push_text_add_at_the_end() {
    let mut out = String::from("LIMIT ");
    push_decimal(&mut out, 42);
    push_text(&mut out, ";");
    push_text(&mut out, "");
    assert_eq!(out, "LIMIT 42;");
}

#[test]
fn same_text_compares_characters() {
    assert!(same_text("", ""));
    assert!(same_text("execute", "execute"));
    assert!(!same_text("execute", "executf"));
    assert!(!same_text("execute", "execut"));
    assert!(!same_text("", "a"));
    assert!(same_text("\u{e9}\u{4e2d}", "\u{e9}\u{4e2d}"));
    assert!(!same_text("\u{e9}", "e"));
}

#[test]
fn substitute_replaces_every_occurrence() {
    assert_eq!(substitute("\\x1234", '\\', '0'), "0x1234");
    assert_eq!(substitute("\\\\a\\", '\\', '0'), "00a0");
    assert_eq!(substitute("abc", '\\', '0'), "abc");
    assert_eq!(substitute("", '\\', '0'), "");
    assert_eq!(substitute("a\u{e9}a", 'a', 'b'), "b\u{e9}b");
}

#[test]
fn characters_are_those_of_the_text() {
    assert_eq!(characters(""), Vec::<char>::new());
    assert_eq!(characters("a\u{e9}b"), vec!['a', '\u{e9}', 'b']);
}

#[test]
fn starts_with_looks_at_the_front() {
    assert!(starts_with("ens name", "ens"));
    assert!(starts_with("ens", "ens"));
    assert!(starts_with("ens", ""));
    assert!(starts_with("", ""));
    assert!(!starts_with("en", "ens"));
    assert!(!starts_with("tens", "ens"));
    assert!(!starts_with("", "ens"));
    assert!(!starts_with("Ens", "ens"));
}

#[test]
fn contains_looks_everywhere() {
    assert!(contains("contract", "contract"));
    assert!(contains("a contract b", "contract"));
    assert!(contains("subcontracts", "contract"));
    assert!(contains("xcontract", "contract"));
    assert!(contains("contractx", "contract"));
    assert!(contains("abc", ""));
    assert!(contains("", ""));
    assert!(!contains("contrac", "contract"));
    assert!(!contains("contra ct", "contract"));
    assert!(!contains("", "contract"));
    assert!(!contains("cocontrac", "contract"));
    assert!(contains("cocontract", "contract"));
}

#[test]
fn texts_are_ordered_by_their_first_difference() {
    assert!(comes_before("0x0a", "0x0b"));
    assert!(!comes_before("0x0b", "0x0a"));
    assert!(!comes_before("0x0a", "0x0a"));
    assert!(comes_before("0x0a", "0x0a0"));
    assert!(!comes_before("0x0a0", "0x0a"));
    assert!(comes_before("", "a"));
    assert!(!comes_before("a", ""));
    assert!(!comes_before("", ""));
    assert!(comes_before("0x9", "0xa"));
    assert!(comes_before("0xA", "0xa"));
    assert!(comes_before("b", "\u{e9}"));
    assert!(comes_before("\u{e9}", "\u{4e2d}"));
    assert!(comes_before("a\u{4e2d}", "b"));
    for (a, b) in [("0x0a", "0x0b"), ("", "a"), ("ab", "b"), ("a\u{e9}", "a\u{4e2d}"), ("x", "x")] {
        assert_eq!(comes_before(a, b), a < b);
        assert_eq!(comes_before(b, a), b < a);
    }
}
