use webhook::text::text_eq;

#[test]
fn equal_texts_compare_equal() {
    assert!(text_eq("", ""));
    assert!(text_eq("status", "status"));
    assert!(text_eq("h\u{e9}llo \u{1f600}", "h\u{e9}llo \u{1f600}"));
}

#[test]
fn texts_of_different_length_differ() {
    assert!(!text_eq("200", "200 "));
    assert!(!text_eq("", "a"));
    assert!(!text_eq("status", "statu"));
}

#[test]
fn texts_of_equal_length_differ_by_one_byte() {
    assert!(!text_eq("POST", "POSt"));
    assert!(!text_eq("post", "POST"));
    assert!(!text_eq("id_gen", "id-gen"));
    // Same number of bytes, different characters.
    assert!(!text_eq("\u{e9}", "ab"));
}
