use still_bott::model::RssItem;
use still_bott::template::{render, replace_all};
use still_bott::timestamp::Timestamp;

fn item() -> RssItem {
    RssItem::new(
        String::from("Hello"),
        String::from("https://example.com/1"),
        Timestamp { unix_nanos: 1_682_910_000_000_000_000, offset_seconds: 9 * 3600 },
    )
}

#[test]
fn replace_every_occurrence() {
    assert_eq!(replace_all("a-b-c", "-", "+"), "a+b+c");
    assert_eq!(replace_all("{x}{x}", "{x}", "yy"), "yyyy");
    assert_eq!(replace_all("none here", "{x}", "y"), "none here");
    assert_eq!(replace_all("", "{x}", "y"), "");
}

#[test]
fn replace_does_not_overlap_or_rescan() {
    assert_eq!(replace_all("aaa", "aa", "b"), "ba");
    assert_eq!(replace_all("aaaa", "aa", "b"), "bb");
    // The replacement is not searched again.
    assert_eq!(replace_all("ab", "a", "aa"), "aab");
    assert_eq!(replace_all("x", "x", "xx"), "xx");
}

#[test]
fn replace_agrees_with_std_for_patterns_that_are_not_empty() {
    let cases = [
        ("{title} - {title}", "{title}", "T"),
        ("tail match{url}", "{url}", ""),
        ("日本語のテキスト{url}です", "{url}", "リンク"),
        ("abcabcabc", "bc", "Z"),
        ("partial {titl", "{title}", "T"),
    ];
    for (text, pattern, with) in cases {
        assert_eq!(replace_all(text, pattern, with), text.replace(pattern, with));
    }
}

#[test]
fn empty_pattern_occurs_nowhere() {
    assert_eq!(replace_all("abc", "", "-"), "abc");
}

#[test]
fn default_text_is_title_blank_line_link() {
    assert_eq!(item().to_message(&None).as_deref(), Some("Hello\n\nhttps://example.com/1"));
}

#[test]
fn template_placeholders_are_filled() {
    let template = Some(String::from("New: {title}\\n{url}\\n({pub_date})"));
    assert_eq!(
        item().to_message(&template).as_deref(),
        Some("New: Hello\nhttps://example.com/1\n(2023-05-01 12:00:00.0 +09:00:00)")
    );
}

#[test]
fn template_without_placeholders_is_posted_as_it_is() {
    let template = Some(String::from("just text"));
    assert_eq!(item().to_message(&template).as_deref(), Some("just text"));
}

#[test]
fn placeholders_in_the_title_are_filled_by_later_steps() {
    // The title is put in first, so a `{url}` inside it is then replaced too.
    let i = RssItem::new(
        String::from("see {url}"),
        String::from("L"),
        Timestamp::from_unix_seconds(0),
    );
    let template = Some(String::from("{title}"));
    assert_eq!(i.to_message(&template).as_deref(), Some("see L"));
}

#[test]
fn template_with_unwritable_instant_gives_no_text() {
    let i = RssItem::new(
        String::from("t"),
        String::from("l"),
        Timestamp { unix_nanos: i128::MAX, offset_seconds: 0 },
    );
    assert_eq!(i.to_message(&Some(String::from("{title}"))), None);
    // Without a template the instant is not needed.
    assert_eq!(i.to_message(&None).as_deref(), Some("t\n\nl"));
}

#[test]
fn text_is_rendered_from_given_fields() {
    let template = Some(String::from("{title} ({pub_date})\\n{url}"));
    assert_eq!(render(&template, "T", "yesterday", "L"), "T (yesterday)\nL");
    assert_eq!(render(&None, "T", "yesterday", "L"), "T\n\nL");
    assert_eq!(render(&Some(String::new()), "T", "yesterday", "L"), "");
    // A placeholder that a field brings in is filled only by the steps that follow.
    assert_eq!(render(&Some(String::from("{title}")), "{url}{title}", "P", "L"), "L{title}");
    assert_eq!(render(&Some(String::from("{url}")), "T", "P", "{title}"), "{title}");
}
