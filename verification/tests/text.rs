use flatpak_installer::text::{last_segment, remove_occurrences};

#[test]
fn last_segment_after_last_separator() {
    assert_eq!(last_segment("https://a/b/c.flatpakrepo", '/'), "c.flatpakrepo");
    assert_eq!(last_segment("no-separator", '/'), "no-separator");
    assert_eq!(last_segment("trailing/", '/'), "");
    assert_eq!(last_segment("", '/'), "");
    assert_eq!(last_segment("é/ü/ß", '/'), "ß");
}

#[test]
fn remove_occurrences_left_to_right() {
    assert_eq!(remove_occurrences("flathub.flatpakrepo", ".flatpakrepo"), "flathub");
    assert_eq!(remove_occurrences("aaa", "aa"), "a");
    assert_eq!(remove_occurrences("abcabc", "bc"), "aa");
    assert_eq!(remove_occurrences("abc", ""), "abc");
    assert_eq!(remove_occurrences("ab", "abc"), "ab");
    assert_eq!(remove_occurrences("x.flatpak.flatpakreporepo", ".flatpakrepo"), "x.flatpakrepo");
}
