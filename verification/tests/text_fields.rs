use ferrite::text::parse_data;

#[test]
fn data_with_a_prefix_decodes() {
    assert_eq!(parse_data("0x00ff10"), Some(vec![0x00, 0xff, 0x10]));
}

#[test]
fn data_without_a_prefix_decodes() {
    assert_eq!(parse_data("AbCd"), Some(vec![0xab, 0xcd]));
    assert_eq!(parse_data("0123456789abcdefABCDEF"), Some(vec![
        0x01, 0x23, 0x45, 0x67, 0x89, 0xab, 0xcd, 0xef, 0xab, 0xcd, 0xef,
    ]));
}

#[test]
fn empty_data_decodes_to_nothing() {
    assert_eq!(parse_data(""), Some(vec![]));
    assert_eq!(parse_data("0x"), Some(vec![]));
}

#[test]
fn data_of_odd_length_is_refused() {
    assert_eq!(parse_data("0xabc"), None);
    assert_eq!(parse_data("a"), None);
    assert_eq!(parse_data("0"), None);
}

#[test]
fn data_with_a_stray_character_is_refused() {
    assert_eq!(parse_data("0xzz"), None);
    assert_eq!(parse_data("0x12 34"), None);
    assert_eq!(parse_data(" 0x1234"), None);
    assert_eq!(parse_data("0X1234"), None);
    assert_eq!(parse_data("0x0x1234"), None);
    assert_eq!(parse_data("12\u{e9}4"), None);
}

#[test]
fn data_prefix_is_taken_off_once() {
    assert_eq!(parse_data("0x0a"), Some(vec![0x0a]));
    assert_eq!(parse_data("0a"), Some(vec![0x0a]));
}
