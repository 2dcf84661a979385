use mwwolf::entity::last_segment;

#[test]
fn last_segment_is_what_follows_the_last_separator() {
    assert_eq!(last_segment("mwwolf::theme::Theme"), "Theme");
    assert_eq!(last_segment("Theme"), "Theme");
    assert_eq!(last_segment("a::b"), "b");
    assert_eq!(last_segment(""), "");
    assert_eq!(last_segment("::"), "");
    assert_eq!(last_segment("a::"), "");
    assert_eq!(last_segment("::a"), "a");
    assert_eq!(last_segment("a:b"), "a:b");
    assert_eq!(last_segment("a:::b"), ":b");
    assert_eq!(last_segment("a::::b"), "b");
    assert_eq!(last_segment("é::ü"), "ü");
}

#[test]
fn last_segment_agrees_with_splitting() {
    let paths = [
        "", ":", "::", ":::", "::::", ":::::", "a", "a:", "a::", "a:::", ":a", "::a", ":::a",
        "a::b::c", "a:::b::c", "a::b:::c", "a:b::c:d", "x::::y", "core::option::Option<u8>",
    ];
    for path in paths {
        assert_eq!(last_segment(path), path.split("::").last().unwrap(), "{:?}", path);
    }
}
