use chrono::{DateTime, NaiveDate, NaiveDateTime, Utc};
use personal_site::blog::{parse_blog_post, BlogPost};
use personal_site::dates::Timestamp;
use personal_site::frontmatter::{field_value_of, split_frontmatter, Frontmatter};

fn chars(s: &str) -> Vec<char> {
    s.chars().collect()
}

fn text(s: &[char]) -> String {
    s.iter().collect()
}

fn stamp(secs: i64, nanos: u32) -> Timestamp {
    Timestamp { secs, nanos }
}

fn stamp_of(t: DateTime<Utc>) -> Timestamp {
    stamp(t.timestamp(), t.timestamp_subsec_nanos())
}

fn parse(content: &str, slug: &str) -> BlogPost {
    parse_blog_post(content, slug.to_string())
}

/// The reading of a post, written with the string functions of the standard
/// library and with `chrono` called directly: (title, date shown, body, slug, instant).
fn read_with_std(content: &str, file_slug: &str) -> (String, String, String, String, Timestamp) {
    let (frontmatter, body) = if let Some(stripped) = content.strip_prefix("---\n") {
        if let Some(end) = stripped.find("\n---\n") {
            (Some(&stripped[..end]), &stripped[end + 5..])
        } else {
            (None, content)
        }
    } else {
        (None, content)
    };
    let mut title = "Untitled".to_string();
    let mut shown = "Unknown".to_string();
    let mut slug = file_slug.to_string();
    let mut at = stamp(0, 0);
    if let Some(fm) = frontmatter {
        for line in fm.lines() {
            let line = line.trim();
            if let Some(rest) = line.strip_prefix("title:") {
                title = rest.trim().trim_matches('"').to_string();
            } else if let Some(rest) = line.strip_prefix("date:") {
                let value = rest.trim().trim_matches('"');
                shown = value.to_string();
                if let Ok(t) = DateTime::parse_from_rfc3339(value) {
                    shown = t.format("%B %-d, %Y").to_string();
                    at = stamp_of(t.with_timezone(&Utc));
                } else if let Ok(t) = NaiveDateTime::parse_from_str(value, "%Y-%m-%dT%H:%M:%S") {
                    shown = t.format("%B %-d, %Y").to_string();
                    at = stamp_of(t.and_utc());
                } else if let Ok(t) = NaiveDateTime::parse_from_str(value, "%Y-%m-%d %H:%M:%S") {
                    shown = t.format("%B %-d, %Y").to_string();
                    at = stamp_of(t.and_utc());
                } else if let Ok(d) = NaiveDate::parse_from_str(value, "%Y-%m-%d") {
                    shown = d.format("%B %-d, %Y").to_string();
                    at = stamp_of(d.and_hms_opt(0, 0, 0).unwrap().and_utc());
                } else if let Ok(d) = NaiveDate::parse_from_str(value, "%B %d, %Y") {
                    shown = d.format("%B %-d, %Y").to_string();
                    at = stamp_of(d.and_hms_opt(0, 0, 0).unwrap().and_utc());
                }
            } else if let Some(rest) = line.strip_prefix("slug:") {
                let candidate = rest.trim().trim_matches('"').to_string();
                if !candidate.is_empty() {
                    slug = candidate;
                }
            }
        }
    }
    (title, shown, body.to_string(), slug, at)
}

#[test]
fn post_with_full_frontmatter_is_read() {
    let post = parse(
        "---\ntitle: Hello World\ndate: 2024-01-05T10:00:00Z\nslug: hello\n---\n# Heading\n\nText.\n",
        "file-name",
    );
    assert_eq!(post.title, "Hello World");
    assert_eq!(post.date_display, "January 5, 2024");
    assert_eq!(post.content, "# Heading\n\nText.\n");
    assert_eq!(post.slug, "hello");
    assert_eq!(post.published_at, stamp(1704448800, 0));
}

#[test]
fn rfc_3339_date_is_shown_as_month_day_year() {
    let post = parse("---\ndate: 2023-11-09T08:30:00+01:00\n---\nbody", "p");
    assert_eq!(post.date_display, "November 9, 2023");
    assert_eq!(post.published_at, stamp(1699515000, 0));
    let post = parse("---\ndate: \"2024-02-29T00:00:00Z\"\n---\nbody", "p");
    assert_eq!(post.date_display, "February 29, 2024");
    let post = parse("---\ndate: 2024-01-01T00:30:00+02:00\n---\n", "p");
    assert_eq!(post.date_display, "January 1, 2024");
    assert_eq!(post.published_at, stamp(1704061800, 0));
}

#[test]
fn post_without_date_has_the_epoch() {
    let post = parse("---\ntitle: No date\n---\nbody", "undated");
    assert_eq!(post.date_display, "Unknown");
    assert_eq!(post.published_at, stamp(0, 0));
    assert_eq!(post.title, "No date");
}

#[test]
fn post_without_frontmatter_is_all_body() {
    let post = parse("# Just text\ntitle: not a field\n", "plain");
    assert_eq!(post.title, "Untitled");
    assert_eq!(post.date_display, "Unknown");
    assert_eq!(post.content, "# Just text\ntitle: not a field\n");
    assert_eq!(post.slug, "plain");
    assert_eq!(post.published_at, stamp(0, 0));
}

#[test]
fn frontmatter_that_is_not_closed_is_body() {
    let content = "---\ntitle: Open\ndate: 2024-01-05\n";
    let post = parse(content, "open");
    assert_eq!(post.title, "Untitled");
    assert_eq!(post.content, content);
    assert_eq!(post.published_at, stamp(0, 0));
    let content = "---\ntitle: Open\n---";
    assert_eq!(parse(content, "open").content, content);
}

#[test]
fn frontmatter_must_open_the_text() {
    let content = " ---\ntitle: T\n---\nbody";
    let post = parse(content, "s");
    assert_eq!(post.title, "Untitled");
    assert_eq!(post.content, content);
    let content = "---\r\ntitle: T\r\n---\r\nbody";
    assert_eq!(parse(content, "s").title, "Untitled");
}

#[test]
fn empty_post_has_the_fallbacks() {
    let post = parse("", "empty");
    assert_eq!(post.title, "Untitled");
    assert_eq!(post.date_display, "Unknown");
    assert_eq!(post.content, "");
    assert_eq!(post.slug, "empty");
    assert_eq!(post.published_at, stamp(0, 0));
}

#[test]
fn quotes_and_whitespace_around_a_value_are_dropped() {
    let post = parse("---\n  title:   \"Quoted Title\"  \nslug: \"my-slug\"\n---\n", "f");
    assert_eq!(post.title, "Quoted Title");
    assert_eq!(post.slug, "my-slug");
    let post = parse("---\ntitle: \" spaced \"\n---\n", "f");
    assert_eq!(post.title, " spaced ");
    let post = parse("---\ntitle:\"\"\"triple\"\"\n---\n", "f");
    assert_eq!(post.title, "triple");
    let post = parse("---\ntitle: say \"hi\" now\n---\n", "f");
    assert_eq!(post.title, "say \"hi\" now");
}

#[test]
fn empty_slug_line_leaves_the_slug_of_the_file() {
    assert_eq!(parse("---\nslug:\n---\n", "from-file").slug, "from-file");
    assert_eq!(parse("---\nslug: \"\"\n---\n", "from-file").slug, "from-file");
    assert_eq!(parse("---\nslug:   \n---\n", "from-file").slug, "from-file");
    assert_eq!(parse("---\nslug: a\nslug:\n---\n", "from-file").slug, "a");
}

#[test]
fn last_line_of_a_key_decides() {
    let post = parse("---\ntitle: One\ntitle: Two\nslug: a\nslug: b\n---\n", "f");
    assert_eq!(post.title, "Two");
    assert_eq!(post.slug, "b");
    assert_eq!(parse("---\ntitle: One\ntitle:\n---\n", "f").title, "");
}

#[test]
fn date_that_is_not_read_is_shown_as_written() {
    let post = parse("---\ndate: sometime in spring\n---\n", "f");
    assert_eq!(post.date_display, "sometime in spring");
    assert_eq!(post.published_at, stamp(0, 0));
}

#[test]
fn later_date_line_that_is_not_read_keeps_the_earlier_instant() {
    let post = parse("---\ndate: 2024-03-10\ndate: someday\n---\n", "f");
    assert_eq!(post.date_display, "someday");
    assert_eq!(post.published_at, stamp(1710028800, 0));
    let post = parse("---\ndate: someday\ndate: 2024-03-10\n---\n", "f");
    assert_eq!(post.date_display, "March 10, 2024");
    assert_eq!(post.published_at, stamp(1710028800, 0));
    let post = parse("---\ndate: 2024-03-10\ndate: 2020-01-01\n---\n", "f");
    assert_eq!(post.date_display, "January 1, 2020");
    assert_eq!(post.published_at, stamp(1577836800, 0));
}

#[test]
fn every_date_layout_is_shown_the_same_way() {
    for value in ["2024-03-05T12:00:00Z", "2024-03-05T12:00:00", "2024-03-05 12:00:00",
        "2024-03-05", "March 05, 2024", "March 5, 2024"]
    {
        let post = parse(&format!("---\ndate: {}\n---\n", value), "f");
        assert_eq!(post.date_display, "March 5, 2024", "{:?}", value);
    }
}

#[test]
fn unknown_keys_and_other_lines_are_passed_over() {
    let post = parse(
        "---\nsummary: a summary\nTitle: wrong case\n\n# comment\ntitle : spaced key\ntags: [a, b]\n---\nbody",
        "f",
    );
    assert_eq!(post.title, "Untitled");
    assert_eq!(post.date_display, "Unknown");
    assert_eq!(post.slug, "f");
    assert_eq!(post.content, "body");
}

#[test]
fn block_ends_at_the_first_closing_line() {
    let post = parse("---\ntitle: A\n---\nbody\n---\nmore\n", "f");
    assert_eq!(post.title, "A");
    assert_eq!(post.content, "body\n---\nmore\n");
    let post = parse("---\n\n---\nbody", "f");
    assert_eq!(post.title, "Untitled");
    assert_eq!(post.content, "body");
}

#[test]
fn block_without_a_line_is_not_found() {
    let content = "---\n---\nbody";
    let post = parse(content, "f");
    assert_eq!(post.content, content);
}

#[test]
fn carriage_returns_inside_a_block_are_whitespace() {
    let post = parse("---\ntitle: Win\r\ndate: 2024-03-10\r\n---\nbody\r\n", "f");
    assert_eq!(post.title, "Win");
    assert_eq!(post.date_display, "March 10, 2024");
    assert_eq!(post.content, "body\r\n");
}

#[test]
fn text_outside_ascii_is_kept() {
    let post = parse("---\ntitle: Caf\u{e9} \u{1F600}\nslug: caf\u{e9}\n---\n\u{4f60}\u{597d}\n", "f");
    assert_eq!(post.title, "Caf\u{e9} \u{1F600}");
    assert_eq!(post.slug, "caf\u{e9}");
    assert_eq!(post.content, "\u{4f60}\u{597d}\n");
}

#[test]
fn reading_a_post_agrees_with_the_standard_library_and_chrono() {
    let samples = vec![
        "",
        "body only",
        "---\n",
        "---\n---\n",
        "---\n\n---\n",
        "---\ntitle: A\n---\n",
        "---\ntitle: A\n---",
        "---\ntitle: A\ndate: 2024-01-05T10:00:00Z\nslug: s\n---\nbody\n",
        "---\ntitle: \"A\"\ndate: \"2024-01-05\"\nslug: \"s\"\n---\nbody\n---\nrest",
        "---\n  title:  padded  \n\tdate:\t2024-01-05 10:00:00\n---\n",
        "---\ntitle: A\r\ndate: January 5, 2024\r\n---\nbody",
        "---\ndate: nonsense\ndate: 2024-01-05T23:59:60Z\ndate: more nonsense\n---\n",
        "---\ntitle:\nslug:\ndate:\n---\n",
        "---\ntitle: one\ntitle: two\nslug: x\nslug: \"\"\n---\n",
        "---\ntitle: \u{e9}\u{e9}\nslug: \u{4f60}\n---\n\u{1F600}",
        "---\ntitle: a\n\n\nslug: b\n---\n\n\n",
        "---\ntitle: a\n ---\nslug: b\n---\nbody",
        "---\ntitle: a\n--- \nslug: b\n---\nbody",
        "---\nslug: a/b\ntitle: \"unbalanced\n---\n",
        "x---\ntitle: a\n---\n",
        "---\ntitle: a\u{a0}\u{3000}\n---\n",
        "---\ndate: 2024-01-05T10:00:00.123Z\n---\n",
        "---\ndate: 1969-07-20T20:17:40Z\n---\n",
    ];
    for content in samples {
        let post = parse(content, "file");
        let (title, shown, body, slug, at) = read_with_std(content, "file");
        assert_eq!(post.title, title, "title of {:?}", content);
        assert_eq!(post.date_display, shown, "date of {:?}", content);
        assert_eq!(post.content, body, "body of {:?}", content);
        assert_eq!(post.slug, slug, "slug of {:?}", content);
        assert_eq!(post.published_at, at, "instant of {:?}", content);
    }
}

#[test]
fn block_and_body_are_parted() {
    let content = chars("---\ntitle: A\n---\nbody");
    let (block, body) = split_frontmatter(&content);
    assert_eq!(block.map(text), Some("title: A".to_string()));
    assert_eq!(text(body), "body");
    let content = chars("no block");
    let (block, body) = split_frontmatter(&content);
    assert_eq!(block.map(text), None);
    assert_eq!(text(body), "no block");
    let content = chars("---\na\nb\n---\n");
    let (block, body) = split_frontmatter(&content);
    assert_eq!(block.map(text), Some("a\nb".to_string()));
    assert_eq!(text(body), "");
}

#[test]
fn value_behind_a_key_is_trimmed_and_unquoted() {
    assert_eq!(text(field_value_of(&chars("  \"x\"  "))), "x");
    assert_eq!(text(field_value_of(&chars("x"))), "x");
    assert_eq!(text(field_value_of(&chars(""))), "");
    assert_eq!(text(field_value_of(&chars(" \" \" "))), " ");
    assert_eq!(text(field_value_of(&chars("\"a\" b"))), "a\" b");
}

#[test]
fn block_is_scanned_line_by_line() {
    let fm = Frontmatter::scan(&chars("title: T\ndate: d1\nother: x\ndate: \"d2\"\nslug: s"));
    assert_eq!(fm.title, Some("T".to_string()));
    assert_eq!(fm.dates, vec!["d1".to_string(), "d2".to_string()]);
    assert_eq!(fm.slug, Some("s".to_string()));
    let fm = Frontmatter::scan(&chars(""));
    assert_eq!(fm.title, None);
    assert_eq!(fm.dates, Vec::<String>::new());
    assert_eq!(fm.slug, None);
}

#[test]
fn line_is_taken_in_by_its_key() {
    let mut fm = Frontmatter::empty();
    fm.take_line(&chars("  title: A  "));
    assert_eq!(fm.title, Some("A".to_string()));
    fm.take_line(&chars("date:"));
    assert_eq!(fm.dates, vec!["".to_string()]);
    fm.take_line(&chars("slug: "));
    assert_eq!(fm.slug, None);
    fm.take_line(&chars("slug: z"));
    assert_eq!(fm.slug, Some("z".to_string()));
    fm.take_line(&chars("titles: B"));
    assert_eq!(fm.title, Some("A".to_string()));
}

#[test]
fn post_is_assembled_from_its_parts() {
    let fm = Frontmatter {
        title: None,
        dates: vec!["2024-03-10".to_string()],
        slug: None,
    };
    let post = BlogPost::assemble(fm, "body".to_string(), "file".to_string());
    assert_eq!(post.title, "Untitled");
    assert_eq!(post.date_display, "March 10, 2024");
    assert_eq!(post.content, "body");
    assert_eq!(post.slug, "file");
    assert_eq!(post.published_at, stamp(1710028800, 0));
}
