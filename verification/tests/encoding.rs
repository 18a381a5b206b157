use relay_gitcode_cli::encoding::{encode_path, encode_path_segment};

#[test]
fn encoding_encodes_path_segments() {
    assert_eq!(encode_path_segment("v1.0.0"), "v1.0.0");
    assert_eq!(encode_path_segment("release/one"), "release%2Fone");
    assert_eq!(encode_path_segment("name with space"), "name%20with%20space");
}

#[test]
fn encodes_path_segments_without_collapsing_slashes() {
    assert_eq!(encode_path("docs/readme#1.md"), "docs/readme%231.md");
    assert_eq!(encode_path("feature//x"), "feature//x");
}

#[test]
fn encodes_reserved_and_non_ascii_bytes_as_percent_escapes() {
    assert_eq!(encode_path_segment("a-b_c.d~e"), "a-b_c.d~e");
    assert_eq!(encode_path_segment("100%"), "100%25");
    assert_eq!(encode_path_segment("é"), "%C3%A9");
    assert_eq!(encode_path_segment(""), "");
}

#[test]
fn encoded_segment_holds_no_slash() {
    for value in ["a/b/c", "/", "x//y", "tag/with space"] {
        assert!(!encode_path_segment(value).contains('/'));
    }
}

#[test]
fn path_without_slash_encodes_like_a_segment() {
    for value in ["plain", "with space", "100%", "é", ""] {
        assert_eq!(encode_path(value), encode_path_segment(value));
    }
}

#[test]
fn path_encoding_keeps_the_slash_count() {
    for value in ["a/b c/d", "//", "x", "é/ü/", "a%2Fb/c"] {
        assert_eq!(
            encode_path(value).matches('/').count(),
            value.matches('/').count()
        );
    }
    assert_eq!(encode_path("a/b c"), "a/b%20c");
}
