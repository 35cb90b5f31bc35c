use doorlock::keys::filter_keys;

#[test]
fn keeps_the_valid_line_and_drops_the_junk() {
    // One valid 32-character base32 line and one 10-character junk line.
    let data = "JBSWY3DPEHPK3PXPJBSWY3DPEHPK3PXP\n0123456789";
    let keys = filter_keys(data);
    assert_eq!(keys.len(), 1);
    assert_eq!(keys[0], "JBSWY3DPEHPK3PXPJBSWY3DPEHPK3PXP");
}

#[test]
fn trailing_newline_changes_nothing() {
    let data = "JBSWY3DPEHPK3PXPJBSWY3DPEHPK3PXP\n0123456789\n";
    let keys = filter_keys(data);
    assert_eq!(keys.len(), 1);
}

#[test]
fn empty_file_gives_empty_secret_set() {
    assert_eq!(filter_keys("").len(), 0);
}

#[test]
fn single_valid_line_without_newline() {
    let keys = filter_keys("AAAAAAAAAAAAAAAAAAAAAAAAAAAAAAAA");
    assert_eq!(keys.len(), 1);
}

#[test]
fn lines_kept_in_file_order() {
    let data = "AAAAAAAAAAAAAAAAAAAAAAAAAAAAAAAA\nshort\nBBBBBBBBBBBBBBBBBBBBBBBBBBBBBBBB";
    let keys = filter_keys(data);
    assert_eq!(keys.len(), 2);
    assert_eq!(keys[0], "AAAAAAAAAAAAAAAAAAAAAAAAAAAAAAAA");
    assert_eq!(keys[1], "BBBBBBBBBBBBBBBBBBBBBBBBBBBBBBBB");
}

#[test]
fn a_33_character_line_is_discarded() {
    assert_eq!(filter_keys("AAAAAAAAAAAAAAAAAAAAAAAAAAAAAAAAA").len(), 0);
}

#[test]
fn blank_lines_are_discarded() {
    assert_eq!(filter_keys("\n\n\n").len(), 0);
}
