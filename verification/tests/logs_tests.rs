use kantocurses::logs::clean_log_bytes;

#[test]
fn ansi_escapes_are_stripped() {
    let bytes = b"\x1b[32mfoo\x1b[m bar".to_vec();
    assert_eq!(clean_log_bytes(bytes), "foo bar");
}

#[test]
fn newlines_are_kept() {
    let bytes = b"foo\nbar\n".to_vec();
    assert_eq!(clean_log_bytes(bytes), "foo\nbar\n");
}

#[test]
fn plain_text_passes_through() {
    let bytes = b"2024-01-01 starting container".to_vec();
    assert_eq!(clean_log_bytes(bytes), "2024-01-01 starting container");
}

#[test]
fn empty_log_stays_empty() {
    assert_eq!(clean_log_bytes(Vec::new()), "");
}

#[test]
fn colored_multiline_log_is_cleaned() {
    let bytes = b"\x1b[31merror\x1b[0m one\n\x1b[33mwarn\x1b[0m two\n".to_vec();
    assert_eq!(clean_log_bytes(bytes), "error one\nwarn two\n");
}
