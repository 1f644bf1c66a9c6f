use batch_fetch::source::{text_parser, WorkItem};
use batch_fetch::text::{is_whitespace_char, trimmed};

fn item(name: &str, url: &str) -> WorkItem {
    WorkItem { name: name.to_string(), url: url.to_string() }
}

/// The same reading of the text, written with the standard library's own
/// line splitting, field splitting and trimming.
fn by_std(text: &str) -> Vec<WorkItem> {
    let mut files = vec![];
    for line in text.lines() {
        let split: Vec<&str> = line.split(",").collect();
        if split.len() >= 2 {
            files.push(WorkItem { name: split[0].to_string(), url: split[1].trim().to_string() });
        }
    }
    files
}

#[test]
fn line_with_name_and_url() {
    assert_eq!(text_parser("report, http://x/r.pdf"), vec![item("report", "http://x/r.pdf")]);
}

#[test]
fn line_without_delimiter_is_skipped() {
    assert_eq!(text_parser("no delimiter here"), vec![]);
    assert_eq!(
        text_parser("report, http://x/r.pdf\nno delimiter here\nb.txt,http://x/b"),
        vec![item("report", "http://x/r.pdf"), item("b.txt", "http://x/b")]
    );
}

#[test]
fn empty_text_has_no_items() {
    assert_eq!(text_parser(""), vec![]);
    assert_eq!(text_parser("\n"), vec![]);
    assert_eq!(text_parser("\n\n\r\n"), vec![]);
}

#[test]
fn final_line_feed_is_optional() {
    let expected = vec![item("a", "u1"), item("b", "u2")];
    assert_eq!(text_parser("a,u1\nb,u2"), expected);
    assert_eq!(text_parser("a,u1\nb,u2\n"), expected);
}

#[test]
fn carriage_return_before_line_feed_ends_the_line() {
    assert_eq!(text_parser("a,u1\r\nb,u2\r\n"), vec![item("a", "u1"), item("b", "u2")]);
    assert_eq!(text_parser("a,\r\n"), vec![item("a", "")]);
    assert_eq!(text_parser("x,y,a\r\n"), vec![item("x", "y")]);
}

#[test]
fn only_one_carriage_return_is_taken_off() {
    assert_eq!(text_parser("a,u,z\r\r\n"), vec![item("a", "u")]);
    assert_eq!(text_parser("a,u,\r\r\n"), vec![item("a", "u")]);
    assert_eq!(text_parser(",\r\r\n,b"), vec![item("", ""), item("", "b")]);
}

#[test]
fn carriage_return_alone_is_part_of_the_line() {
    assert_eq!(text_parser("a\r,u"), vec![item("a\r", "u")]);
    assert_eq!(text_parser("a,u\rb,c"), vec![item("a", "u\rb")]);
}

#[test]
fn name_keeps_its_whitespace() {
    assert_eq!(text_parser("  my file ,u"), vec![item("  my file ", "u")]);
}

#[test]
fn url_loses_whitespace_at_both_ends_only() {
    assert_eq!(text_parser("n, \t http://x/a b \t "), vec![item("n", "http://x/a b")]);
    assert_eq!(text_parser("n,\u{a0}\u{3000}u\u{2003}\u{85}"), vec![item("n", "u")]);
    assert_eq!(text_parser("n,   "), vec![item("n", "")]);
    assert_eq!(text_parser("n,\u{200b}u"), vec![item("n", "\u{200b}u")]);
}

#[test]
fn fields_after_the_second_are_dropped() {
    assert_eq!(text_parser("n,u,extra,more"), vec![item("n", "u")]);
    assert_eq!(text_parser("n, u ,"), vec![item("n", "u")]);
}

#[test]
fn empty_fields_are_kept() {
    assert_eq!(text_parser(","), vec![item("", "")]);
    assert_eq!(text_parser(",u"), vec![item("", "u")]);
    assert_eq!(text_parser("n,"), vec![item("n", "")]);
    assert_eq!(text_parser(",,"), vec![item("", "")]);
}

#[test]
fn items_keep_the_order_of_their_lines() {
    let mut text = String::new();
    let mut expected = vec![];
    for i in 0..100 {
        text.push_str(&format!("file{}.bin, http://host/{}\n", i, i));
        if i % 7 == 0 {
            text.push_str("a line to skip\n");
        }
        expected.push(item(&format!("file{}.bin", i), &format!("http://host/{}", i)));
    }
    assert_eq!(text_parser(&text), expected);
}

#[test]
fn text_beyond_ascii() {
    assert_eq!(
        text_parser("r\u{e9}sum\u{e9}.pdf, http://x/\u{1f600}\n\u{4e2d},\u{6587}"),
        vec![item("r\u{e9}sum\u{e9}.pdf", "http://x/\u{1f600}"), item("\u{4e2d}", "\u{6587}")]
    );
}

#[test]
fn whitespace_is_what_the_standard_library_calls_whitespace() {
    let mut count = 0;
    for code in 0..=0x10FFFFu32 {
        if let Some(c) = char::from_u32(code) {
            assert_eq!(is_whitespace_char(c), c.is_whitespace(), "U+{:04X}", code);
            if c.is_whitespace() {
                count += 1;
            }
        }
    }
    assert_eq!(count, 25);
}

#[test]
fn agrees_with_the_standard_library_on_short_texts() {
    let alphabet = ['a', ',', ' ', '\n', '\r', '\t', '\u{a0}'];
    let mut texts: Vec<String> = vec![String::new()];
    let mut from = 0;
    for _ in 0..5 {
        let upto = texts.len();
        for i in from..upto {
            for c in alphabet {
                let mut t = texts[i].clone();
                t.push(c);
                texts.push(t);
            }
        }
        from = upto;
    }
    assert_eq!(texts.len(), 1 + 7 + 49 + 343 + 2401 + 16807);
    for t in &texts {
        assert_eq!(text_parser(t), by_std(t), "text {:?}", t);
    }
}

#[test]
fn trimmed_is_what_the_standard_library_trims() {
    assert_eq!(trimmed("  paths.json \n"), "paths.json");
    assert_eq!(trimmed(""), "");
    assert_eq!(trimmed(" \t\r\n"), "");
    assert_eq!(trimmed("a b"), "a b");
    assert_eq!(trimmed("\u{2028}x\u{205f}y\u{202f}"), "x\u{205f}y");
    let alphabet = ['a', ',', ' ', '\n', '\r', '\u{3000}'];
    let mut texts: Vec<String> = vec![String::new()];
    let mut from = 0;
    for _ in 0..5 {
        let upto = texts.len();
        for i in from..upto {
            for c in alphabet {
                let mut t = texts[i].clone();
                t.push(c);
                texts.push(t);
            }
        }
        from = upto;
    }
    for t in &texts {
        assert_eq!(trimmed(t), t.trim(), "text {:?}", t);
    }
}
