use location::url_value::Url;

fn url(text: &str) -> Url {
    Url::parse(text).unwrap()
}

#[test]
fn parse_serializes_the_url() {
    assert_eq!(url("HTTPS://Example.COM").as_str(), "https://example.com/");
    assert_eq!(url("https://example.com/a/../b").as_str(), "https://example.com/b");
}

#[test]
fn parse_keeps_a_serialization_unchanged() {
    for text in ["https://example.com/", "about:blank", "file:///tmp/x", "data:text/plain,hi"] {
        assert_eq!(url(text).as_str(), text);
    }
}

#[test]
fn parse_refuses_relative_text_with_the_parser_message() {
    assert_eq!(Url::parse("/a/b"), Err("relative URL without a base".to_string()));
    assert_eq!(Url::parse(""), Err("relative URL without a base".to_string()));
}

#[test]
fn join_resolves_against_the_base() {
    let base = url("https://example.com/a/b.html");
    assert_eq!(base.join("c.png").unwrap(), "https://example.com/a/c.png");
    assert_eq!(base.join("/v1/meta").unwrap(), "https://example.com/v1/meta");
    assert_eq!(base.join("//eve.example/b").unwrap(), "https://eve.example/b");
    assert_eq!(base.join("http://eve.example/b").unwrap(), "http://eve.example/b");
}

#[test]
fn join_fails_with_the_parser_message() {
    let base = url("https://example.com/a/b.html");
    assert_eq!(base.join("http://[:::1]"), Err("invalid IPv6 address".to_string()));
}

#[test]
fn about_blank_is_the_blank_page() {
    let blank = Url::about_blank();
    assert_eq!(blank.as_str(), "about:blank");
    assert_eq!(blank.scheme(), "about");
    assert_eq!(blank.pathname(), "blank");
    assert!(blank.cannot_be_a_base());
    assert!(!blank.has_host());
}

#[test]
fn components_are_read_from_the_url() {
    let full = url("https://user:pw@example.com:8080/a/b?x=1#frag");
    assert_eq!(full.href(), "https://user:pw@example.com:8080/a/b?x=1#frag");
    assert_eq!(full.origin(), "https://example.com:8080");
    assert_eq!(full.protocol(), "https:");
    assert_eq!(full.host(), "example.com:8080");
    assert_eq!(full.hostname(), "example.com");
    assert_eq!(full.port(), "8080");
    assert_eq!(full.pathname(), "/a/b");
    assert_eq!(full.search(), "?x=1");
    assert_eq!(full.hash(), "#frag");
    assert_eq!(full.scheme(), "https");
    assert!(full.has_host());
    assert!(!full.cannot_be_a_base());
}

#[test]
fn empty_components_read_as_empty_text() {
    let bare = url("https://example.com/");
    assert_eq!(bare.port(), "");
    assert_eq!(bare.search(), "");
    assert_eq!(bare.hash(), "");
    assert_eq!(bare.host(), "example.com");
    let marked = url("https://example.com/?#");
    assert_eq!(marked.search(), "");
    assert_eq!(marked.hash(), "");
}

#[test]
fn urls_without_hierarchy_cannot_be_a_base() {
    assert!(url("mailto:someone@example.com").cannot_be_a_base());
    assert!(url("data:text/plain,hello").cannot_be_a_base());
    assert!(!url("file:///tmp/x").cannot_be_a_base());
    assert!(!url("file:///tmp/x").has_host());
}

#[test]
fn with_fragment_sets_the_fragment() {
    let base = url("https://example.com/a?x=1#old");
    assert_eq!(base.with_fragment("new"), "https://example.com/a?x=1#new");
    assert_eq!(base.with_fragment(""), "https://example.com/a?x=1#");
}

#[test]
fn with_query_sets_or_removes_the_query() {
    let base = url("https://example.com/a?x=1#f");
    assert_eq!(base.with_query(Some("y=2")), "https://example.com/a?y=2#f");
    assert_eq!(base.with_query(Some("")), "https://example.com/a?#f");
    assert_eq!(base.with_query(None), "https://example.com/a#f");
}

#[test]
fn with_path_replaces_the_path() {
    let base = url("https://example.com/a?x=1#f");
    assert_eq!(base.with_path("/b/c"), "https://example.com/b/c?x=1#f");
    assert_eq!(base.with_path("d"), "https://example.com/d?x=1#f");
}

#[test]
fn with_host_sets_the_host_or_leaves_the_url() {
    let base = url("https://example.com:8080/a");
    assert_eq!(base.with_host("example.org"), "https://example.org:8080/a");
    assert_eq!(base.with_host(""), "https://example.com:8080/a");
    assert_eq!(base.with_host("exa mple"), "https://example.com:8080/a");
}

#[test]
fn with_port_sets_or_removes_the_port() {
    let base = url("https://example.com:8080/a");
    assert_eq!(base.with_port("9090"), "https://example.com:9090/a");
    assert_eq!(base.with_port("443"), "https://example.com/a");
    assert_eq!(base.with_port(""), "https://example.com/a");
    assert_eq!(url("file:///tmp/x").with_port("80"), "file:///tmp/x");
}

#[test]
fn with_scheme_sets_the_scheme_or_refuses_it() {
    let base = url("ftp://example.com/a");
    assert_eq!(base.with_scheme("http").unwrap(), "http://example.com/a");
    assert_eq!(base.with_scheme("javascript").unwrap(), "javascript://example.com/a");
    assert_eq!(base.with_scheme("1http"), None);
    assert_eq!(base.with_scheme(""), None);
    assert_eq!(url("mailto:someone@example.com").with_scheme("http"), None);
}

#[test]
fn clone_keeps_the_url() {
    let original = url("https://example.com/a?x=1#f");
    assert_eq!(original.clone(), original);
}

#[test]
fn fits_counts_the_characters_of_url_and_value() {
    let base = url("https://example.com/");
    assert!(base.fits(""));
    assert!(base.fits("x"));
    let long = "x".repeat(100_000_000 - 20);
    assert!(base.fits(&long));
    let longer = "x".repeat(100_000_000 - 19);
    assert!(!base.fits(&longer));
}

#[test]
fn can_be_base_refuses_a_file_url_that_ends_in_a_drive_letter() {
    assert!(!url("file:///C:").can_be_base());
    assert!(!url("file:///C|").can_be_base());
    assert!(!url("file:C:").can_be_base());
    assert!(url("file:///C:/").can_be_base());
    assert!(url("file:///tmp/x").can_be_base());
    assert!(url("https://example.com/C:").can_be_base());
}

#[test]
fn parse_keeps_the_text_apart_from_the_serialization() {
    let parsed = url("HTTPS://Example.COM");
    assert_eq!(parsed.as_str(), "https://example.com/");
    assert_eq!(parsed.href(), "https://example.com/");
    assert_eq!(parsed, url("HTTPS://Example.COM"));
}

#[test]
fn can_resolve_leaves_out_a_path_that_goes_on_from_a_drive_letter() {
    let drive = url("file:///C:");
    assert!(!drive.can_resolve("x"));
    assert!(!drive.can_resolve("../x"));
    assert!(drive.can_resolve("/x"));
    assert!(drive.can_resolve("?q"));
    assert!(drive.can_resolve("#f"));
    assert!(drive.can_resolve(""));
    assert!(drive.can_resolve("https://example.com/"));
    assert_eq!(drive.join("/x").unwrap(), "file:///C:/x");
    assert_eq!(drive.join("https://example.com/").unwrap(), "https://example.com/");
    assert_eq!(drive.join("#f").unwrap(), "file:///C:#f");
    assert!(url("file:///C:/").can_resolve("x"));
    assert!(url("https://example.com/C:").can_resolve("x"));
}

#[test]
fn can_resolve_leaves_out_a_host_that_the_parser_cannot_encode() {
    let base = url("https://example.com/");
    let label = format!("{}\u{10081}", "a".repeat(65_534));
    assert!(!base.can_resolve(&format!("//{}/", label)));
    assert!(!base.can_resolve(&format!("http://{}/", label)));
    assert!(base.can_resolve(&format!("/{}/", label)));
    assert!(base.can_resolve(&format!("?{}", label)));
}
