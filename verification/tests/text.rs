use location::text::{
    base_path, count_in, cut_before, cut_file_host, cut_slash, drive_letter_base, drop_leading,
    eq_ignore_ascii_case,
    host_input, is_in, label_text, other_scheme, parser_input, plain, readable_hosts,
    short_labels, spells_word, strip_leading, take_leading, to_ascii_lower, Class,
};

#[test]
fn strip_leading_removes_one_marker() {
    assert_eq!(strip_leading("#x", '#'), "x");
    assert_eq!(strip_leading("##x", '#'), "#x");
    assert_eq!(strip_leading("#", '#'), "");
    assert_eq!(strip_leading("?a=1", '?'), "a=1");
}

#[test]
fn strip_leading_keeps_text_without_marker() {
    assert_eq!(strip_leading("x", '#'), "x");
    assert_eq!(strip_leading("", '#'), "");
    assert_eq!(strip_leading("x#", '#'), "x#");
    assert_eq!(strip_leading("?x", '#'), "?x");
}

#[test]
fn strip_leading_counts_characters_not_bytes() {
    assert_eq!(strip_leading("#\u{e9}t\u{e9}", '#'), "\u{e9}t\u{e9}");
    assert_eq!(strip_leading("\u{e9}#", '\u{e9}'), "#");
}

#[test]
fn cut_before_stops_at_first_marker() {
    assert_eq!(cut_before("http:", ':'), "http");
    assert_eq!(cut_before("a:b:c", ':'), "a");
    assert_eq!(cut_before(":x", ':'), "");
    assert_eq!(cut_before("https://example.com/", ':'), "https");
}

#[test]
fn cut_before_keeps_text_without_marker() {
    assert_eq!(cut_before("http", ':'), "http");
    assert_eq!(cut_before("", ':'), "");
}

#[test]
fn cut_before_counts_characters_not_bytes() {
    assert_eq!(cut_before("\u{e9}\u{e8}:x", ':'), "\u{e9}\u{e8}");
}

#[test]
fn to_ascii_lower_maps_capitals_only() {
    assert_eq!(to_ascii_lower('A'), 'a');
    assert_eq!(to_ascii_lower('Z'), 'z');
    assert_eq!(to_ascii_lower('m'), 'm');
    assert_eq!(to_ascii_lower('@'), '@');
    assert_eq!(to_ascii_lower('['), '[');
    assert_eq!(to_ascii_lower('\u{c9}'), '\u{c9}');
}

#[test]
fn eq_ignore_ascii_case_folds_ascii_letters() {
    assert!(eq_ignore_ascii_case("HTTP", "http"));
    assert!(eq_ignore_ascii_case("hTtPs", "https"));
    assert!(eq_ignore_ascii_case("", ""));
}

#[test]
fn eq_ignore_ascii_case_tells_texts_apart() {
    assert!(!eq_ignore_ascii_case("https", "http"));
    assert!(!eq_ignore_ascii_case("http", "https"));
    assert!(!eq_ignore_ascii_case("ftp", "ftq"));
    assert!(!eq_ignore_ascii_case("\u{e9}", "\u{c9}"));
}

#[test]
fn plain_text_holds_no_trigger() {
    assert!(plain(""));
    assert!(plain("https://example.com/a_b/c?x=1#f"));
    assert!(!plain("100%"));
    assert!(!plain("xn--a"));
    assert!(!plain("caf\u{e9}"));
    assert!(plain("\u{7f}"));
    assert!(!plain("\u{80}"));
}

#[test]
fn short_labels_measures_between_breaks() {
    assert!(short_labels(""));
    assert!(short_labels(&"a".repeat(200)));
    assert!(!short_labels(&"a".repeat(201)));
    for mark in [".", "/", "\\"] {
        let text = format!("{}{}{}", "a".repeat(200), mark, "b".repeat(200));
        assert!(short_labels(&text));
        let text = format!("{}{}{}", "a".repeat(200), mark, "b".repeat(201));
        assert!(!short_labels(&text));
    }
    assert!(!short_labels(&format!("{}:{}", "a".repeat(100), "b".repeat(100))));
}

#[test]
fn parser_input_takes_plain_text_of_any_label_length() {
    assert!(parser_input(&format!("https://{}.example/", "a".repeat(70_000))));
    assert!(parser_input(&format!("data:text/plain,{}", "a".repeat(70_000))));
}

#[test]
fn parser_input_asks_for_short_labels_in_the_host() {
    assert!(parser_input("https://caf\u{e9}.example/a-b/%41"));
    assert!(parser_input(&format!("https://{}\u{e9}.example/", "a".repeat(199))));
    assert!(!parser_input(&format!("https://{}\u{e9}.example/", "a".repeat(200))));
    assert!(!parser_input(&format!("http://{}\u{10081}/", "a".repeat(65_534))));
    assert!(!parser_input(&format!("http:{}\u{10081}/", "a".repeat(65_534))));
    assert!(!parser_input(&format!(" ht\tTP:/\\\n/{}\u{10081}/", "a".repeat(65_534))));
    assert!(!parser_input(&format!("file://{}\u{10081}/", "a".repeat(65_534))));
    assert!(!parser_input(&format!("https://user@x.{}\u{10081}:80/", "a".repeat(65_534))));
}

#[test]
fn parser_input_asks_for_short_labels_behind_leading_slashes() {
    assert!(!parser_input(&format!("//{}\u{10081}/", "a".repeat(65_534))));
    assert!(!parser_input(&format!(" \\\t/{}\u{10081}/", "a".repeat(65_534))));
    assert!(parser_input(&format!("/{}\u{10081}/", "a".repeat(65_534))));
    assert!(parser_input(&format!("x//{}\u{10081}/", "a".repeat(65_534))));
}

#[test]
fn parser_input_asks_for_short_labels_anywhere_in_a_blob_url() {
    assert!(!parser_input(&format!("blob:http://{}\u{10081}/", "a".repeat(65_534))));
    assert!(!parser_input(&format!("BLOB:blob:http://{}\u{10081}/", "a".repeat(65_534))));
    assert!(parser_input(&format!("blob:http://x/?{}\u{10081}/", "a".repeat(65_534))));
    assert!(parser_input("blob:https://example.com/7f1c6a2e-0000-4c1d-9a57-aaaaaaaaaaaa"));
    let title = "%D0%B0".repeat(34);
    assert!(parser_input(&format!("blob:https://example.com/{}", title)));
    assert!(!parser_input(&format!(" bl\tOB:ht\ntp:/\\{}\u{10081}/", "a".repeat(65_534))));
    assert!(parser_input(&format!("about:http://{}\u{10081}/", "a".repeat(65_534))));
}

#[test]
fn parser_input_looks_for_the_host_of_a_file_url_behind_two_slashes() {
    let label = format!("{}\u{10081}", "a".repeat(65_534));
    assert!(!parser_input(&format!("file://{}/", label)));
    assert!(!parser_input(&format!("FILE:/\\{}", label)));
    assert!(!parser_input(&format!(" fi\tle:\t/\n\\{}?q", label)));
    assert!(parser_input(&format!("file:///{}", label)));
    assert!(parser_input(&format!("file:/{}", label)));
    assert!(parser_input(&format!("file:{}", label)));
    assert!(parser_input(&format!("file://host/{}", label)));
    assert!(parser_input(&format!("file:///{}", "%D0%B0".repeat(34))));
}

#[test]
fn cut_file_host_takes_what_stands_behind_two_slashes() {
    assert_eq!(cut_file_host("//host/p"), "host");
    assert_eq!(cut_file_host("/\\host\\p"), "host");
    assert_eq!(cut_file_host("\t/\n/ho\tst?q"), "ho\tst");
    assert_eq!(cut_file_host("///p"), "");
    assert_eq!(cut_file_host("/p"), "");
    assert_eq!(cut_file_host("p"), "");
    assert_eq!(cut_file_host(""), "");
    assert_eq!(cut_slash("/x"), Some("x"));
    assert_eq!(cut_slash("\r\\"), Some(""));
    assert_eq!(cut_slash("x/"), None);
    assert_eq!(cut_slash(" /"), None);
    assert_eq!(cut_slash(""), None);
}

#[test]
fn parser_input_limits_how_deep_blob_urls_stand() {
    assert!(parser_input(&format!("{}http://example.com/", "blob:".repeat(8))));
    assert!(!parser_input(&format!("{}http://example.com/", "blob:".repeat(9))));
    assert!(!parser_input(&"blob:".repeat(100_000)));
}

#[test]
fn spells_word_passes_over_blanks_and_case() {
    assert!(spells_word("blob", "blob"));
    assert!(spells_word(" Bl\tO\nb ", "blob"));
    assert!(spells_word("", ""));
    assert!(spells_word(" \t", ""));
    assert!(!spells_word("blo", "blob"));
    assert!(!spells_word("blobs", "blob"));
    assert!(!spells_word("about", "blob"));
    assert!(!spells_word("", "blob"));
    assert!(!spells_word("b-lob", "blob"));
}

#[test]
fn readable_hosts_looks_behind_the_scheme() {
    assert!(readable_hosts("no scheme here"));
    assert!(readable_hosts(&format!("a/b:{}\u{e9}", "a".repeat(300))));
    assert!(readable_hosts(&format!("http://x/{}\u{e9}", "a".repeat(300))));
    assert!(!readable_hosts(&format!("http://{}\u{e9}", "a".repeat(300))));
}

#[test]
fn parser_input_does_not_measure_what_is_no_host() {
    let title = "%D0%B0".repeat(34);
    assert!(parser_input(&format!("https://ru.wikipedia.org/wiki/{}", title)));
    assert!(parser_input(&format!("https://my-host.example/{}", "a".repeat(201))));
    assert!(parser_input(&format!("https://example.com/{}-?q", "a".repeat(70_000))));
    assert!(parser_input(&format!("https://example.com/?q={}%20", "a".repeat(70_000))));
    assert!(parser_input(&format!("https://example.com/#{}-", "a".repeat(70_000))));
    assert!(parser_input(&format!("wiki/Category:{}", title)));
    assert!(parser_input(&format!("/{}", title)));
    assert!(parser_input(&title));
}

#[test]
fn parser_input_has_a_limit_of_length() {
    assert!(parser_input(&"a".repeat(100_000_000)));
    assert!(!parser_input(&"a".repeat(100_000_001)));
}

#[test]
fn host_input_is_plain_or_short() {
    assert!(host_input("example.org"));
    assert!(host_input(&"a".repeat(70_000)));
    assert!(host_input(&format!("{}\u{e9}", "a".repeat(199))));
    assert!(!host_input(&format!("{}\u{e9}", "a".repeat(200))));
    assert!(!host_input(&format!("{}/{}\u{e9}", "a".repeat(150), "a".repeat(150))));
}

#[test]
fn host_input_measures_each_label() {
    let name =
        format!("{}.{}.{}.{}-x", "a".repeat(63), "b".repeat(63), "c".repeat(63), "d".repeat(59));
    assert_eq!(name.chars().count(), 253);
    assert!(host_input(&name));
    assert!(host_input(&format!("{}\u{e9}.{}", "a".repeat(199), "b".repeat(199))));
    assert!(!host_input(&format!("{}\u{e9}.{}", "a".repeat(200), "b".repeat(199))));
    assert!(!host_input(&format!("{}?{}\u{e9}", "a".repeat(150), "a".repeat(150))));
}

#[test]
fn drive_letter_base_is_a_file_url_that_ends_in_a_drive_letter() {
    assert!(drive_letter_base("file:///C:"));
    assert!(drive_letter_base("file:///c|"));
    assert!(drive_letter_base("file:///a/b/Z:"));
    assert!(drive_letter_base("file:///C:?q"));
    assert!(drive_letter_base("file:///C:#f"));
    assert!(drive_letter_base("FILE:///C:"));
}

#[test]
fn drive_letter_base_is_nothing_else() {
    assert!(!drive_letter_base("file:///C:/"));
    assert!(!drive_letter_base("file:///C:/x"));
    assert!(!drive_letter_base("file:///CC:"));
    assert!(!drive_letter_base("file:///1:"));
    assert!(!drive_letter_base("file:///C;"));
    assert!(!drive_letter_base("file:///tmp/x"));
    assert!(!drive_letter_base("http://example.com/C:"));
    assert!(!drive_letter_base("file:///x?/C:"));
    assert!(!drive_letter_base("C:"));
    assert!(!drive_letter_base(""));
}

#[test]
fn is_in_tells_the_classes_apart() {
    assert!(is_in(Class::Blank, ' ') && is_in(Class::Blank, '\t') && is_in(Class::Blank, '\u{0}'));
    assert!(!is_in(Class::Blank, '!'));
    for c in ['/', '\\', '\t', '\n', '\r'] {
        assert!(is_in(Class::Slash, c));
    }
    assert!(!is_in(Class::Slash, ' ') && !is_in(Class::Slash, '?'));
    for c in ['/', '\\', '?', '#'] {
        assert!(!is_in(Class::Host, c));
    }
    assert!(is_in(Class::Host, ':') && is_in(Class::Host, '@') && is_in(Class::Host, '\t'));
    assert!(is_in(Class::Passed, '\t') && is_in(Class::Passed, '\n') && is_in(Class::Passed, '\r'));
    assert!(!is_in(Class::Passed, ' ') && !is_in(Class::Passed, '/'));
    for c in ['a', 'Z', '0', '9', '+', '-', '.'] {
        assert!(is_in(Class::Scheme, c));
    }
    assert!(!is_in(Class::Scheme, ':') && !is_in(Class::Scheme, ' ') && !is_in(Class::Scheme, '_'));
}

#[test]
fn count_drop_and_take_work_from_the_start() {
    assert_eq!(count_in("  \tx ", Class::Blank), 3);
    assert_eq!(count_in("", Class::Blank), 0);
    assert_eq!(count_in("x  ", Class::Blank), 0);
    assert_eq!(drop_leading("/\\\t/host/p", Class::Slash), "host/p");
    assert_eq!(drop_leading("host", Class::Slash), "host");
    assert_eq!(take_leading("u@host:80/p?q", Class::Host), "u@host:80");
    assert_eq!(take_leading("/p", Class::Host), "");
    assert_eq!(take_leading("\u{e9}\u{e8}#x", Class::Host), "\u{e9}\u{e8}");
}

#[test]
fn label_text_is_plain_or_short() {
    assert!(label_text(&"a".repeat(70_000)));
    assert!(label_text(&format!("{}-", "a".repeat(199))));
    assert!(!label_text(&format!("{}-", "a".repeat(200))));
}

#[test]
fn other_scheme_is_a_scheme_that_is_not_file() {
    assert!(other_scheme("http://x"));
    assert!(other_scheme("a+b-c.d:x"));
    assert!(other_scheme("data:"));
    assert!(!other_scheme("file:x"));
    assert!(!other_scheme("FILE:x"));
    assert!(!other_scheme("1a:x"));
    assert!(!other_scheme(" http://x"));
    assert!(!other_scheme("ht\ttp://x"));
    assert!(!other_scheme("a b:x"));
    assert!(!other_scheme(":x"));
    assert!(!other_scheme("http"));
    assert!(!other_scheme(""));
}

#[test]
fn base_path_goes_on_from_the_base() {
    for text in ["x", " x", "\tx/y", "..", "a b:c", "1a:b", "C|/x", "%", ":x"] {
        assert!(base_path(text));
    }
    for text in ["", " ", "/x", "\\x", "//h/x", "?q", "#f", " /x", "http://x", "data:x", "a:b"] {
        assert!(!base_path(text));
    }
    for text in ["file:x", "FILE:x/y", "file:\tx", "file:..", " file:/x", "fi\tle:/x"] {
        assert!(base_path(text));
    }
    for text in ["file:", "file:/x", "file://h/x", "File:\\x", "file:?q", "file:#f", "file:\t/x"] {
        assert!(!base_path(text));
    }
}
