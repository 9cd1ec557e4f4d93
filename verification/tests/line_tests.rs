use stream_mux::line::{char_is_whitespace, trim_line, Origin, TaggedLine};
use stream_mux::reader::{read_step, ReadStep};

#[test]
fn whitespace_is_what_the_standard_library_calls_whitespace() {
    let mut code: u32 = 0;
    while code <= 0x10FFFF {
        if let Some(c) = char::from_u32(code) {
            assert_eq!(char_is_whitespace(c), c.is_whitespace(), "code point {:#x}", code);
        }
        code += 1;
    }
}

#[test]
fn whitespace_holds_the_line_endings() {
    assert!(char_is_whitespace('\n'));
    assert!(char_is_whitespace('\r'));
    assert!(char_is_whitespace('\t'));
    assert!(char_is_whitespace(' '));
    assert!(char_is_whitespace('\u{85}'));
    assert!(char_is_whitespace('\u{3000}'));
    assert!(!char_is_whitespace('a'));
    assert!(!char_is_whitespace('\u{8}'));
    assert!(!char_is_whitespace('\u{e}'));
    assert!(!char_is_whitespace('\u{200b}'));
}

#[test]
fn trim_removes_carriage_return_and_newline() {
    assert_eq!(trim_line("A\r\n"), "A");
    assert_eq!(trim_line("A\n"), "A");
    assert_eq!(trim_line("A\r\n\r\n"), "A");
    assert_eq!(trim_line("A\n\r"), "A");
}

#[test]
fn trim_removes_every_kind_of_trailing_whitespace() {
    assert_eq!(trim_line("done \t \u{a0}\u{2003}\n"), "done");
}

#[test]
fn trim_keeps_leading_and_inner_whitespace() {
    assert_eq!(trim_line("  two  words  \n"), "  two  words");
    assert_eq!(trim_line("\tindented\r\n"), "\tindented");
}

#[test]
fn trim_leaves_a_clean_line_alone() {
    assert_eq!(trim_line("plain"), "plain");
    assert_eq!(trim_line(""), "");
}

#[test]
fn trim_empties_a_blank_line() {
    assert_eq!(trim_line("\n"), "");
    assert_eq!(trim_line(" \r\n"), "");
}

#[test]
fn trim_counts_characters_not_bytes() {
    assert_eq!(trim_line("h\u{e9}llo w\u{f6}rld \u{1f600} \n"), "h\u{e9}llo w\u{f6}rld \u{1f600}");
    assert_eq!(trim_line("\u{65e5}\u{672c}\u{8a9e}\u{3000}\n"), "\u{65e5}\u{672c}\u{8a9e}");
}

#[test]
fn trim_agrees_with_the_standard_library() {
    let samples = [
        "",
        " ",
        "a",
        " a",
        "a ",
        " a ",
        "a\r\n",
        "a b c\t\t",
        "\u{2028}x\u{2028}",
        "x\u{200b}",
        "==> Downloading https://example.org/bottle.tar.gz\n",
        "\u{1f37a}  /usr/local/Cellar/gstreamer/1.14.4: 246 files, 22.1MB   \n",
    ];
    for raw in samples {
        assert_eq!(trim_line(raw), raw.trim_end(), "raw line {:?}", raw);
    }
}

#[test]
fn trim_is_idempotent() {
    let once = trim_line("  text \t\r\n");
    let twice = trim_line(&once);
    assert_eq!(once, "  text");
    assert_eq!(twice, once);
}

#[test]
fn read_that_brings_nothing_ends_the_stream() {
    assert_eq!(read_step(false, ""), ReadStep::Finish);
}

#[test]
fn failed_read_ends_the_stream_whatever_the_buffer_holds() {
    assert_eq!(read_step(true, ""), ReadStep::Finish);
    assert_eq!(read_step(true, "half a li"), ReadStep::Finish);
    assert_eq!(read_step(true, "whole line\n"), ReadStep::Finish);
}

#[test]
fn read_of_a_line_forwards_it_trimmed() {
    assert_eq!(read_step(false, "hello\r\n"), ReadStep::Forward("hello".to_string()));
    assert_eq!(read_step(false, "  hello  \n"), ReadStep::Forward("  hello".to_string()));
    assert_eq!(read_step(false, "no newline at end"), ReadStep::Forward("no newline at end".to_string()));
}

#[test]
fn blank_line_is_forwarded_and_does_not_end_the_stream() {
    assert_eq!(read_step(false, "\n"), ReadStep::Forward(String::new()));
    assert_eq!(read_step(false, "   \r\n"), ReadStep::Forward(String::new()));
}

#[test]
fn tagged_lines_compare_by_origin_and_text() {
    let a = TaggedLine { origin: Origin::StandardOutput, text: "x".to_string() };
    let b = TaggedLine { origin: Origin::StandardError, text: "x".to_string() };
    let c = TaggedLine { origin: Origin::StandardOutput, text: "x".to_string() };
    assert_ne!(a, b);
    assert_eq!(a, c);
    assert_eq!(a.clone(), a);
}
