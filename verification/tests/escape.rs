use rustup_core::escape::{escape_text, unescape_text};

#[test]
fn plain_text_is_written_as_it_is() {
    assert_eq!(escape_text(""), "");
    assert_eq!(escape_text("/home/alice/project"), "/home/alice/project");
    assert_eq!(escape_text("C:\\Users\\alice"), "C:\\Users\\alice");
    assert_eq!(escape_text("nightly-x86_64-unknown-linux-gnu"), "nightly-x86_64-unknown-linux-gnu");
    assert_eq!(escape_text("/ünïcode/路径"), "/ünïcode/路径");
}

#[test]
fn the_three_characters_are_written_as_codes() {
    assert_eq!(escape_text(";"), "%3B");
    assert_eq!(escape_text("\n"), "%0A");
    assert_eq!(escape_text("%"), "%25");
    assert_eq!(escape_text("a;b\nc%d"), "a%3Bb%0Ac%25d");
    assert_eq!(escape_text("%3B"), "%253B");
    assert_eq!(escape_text(";;"), "%3B%3B");
}

#[test]
fn written_text_fits_a_field() {
    let texts = ["", ";", "\n", ";\n;\n", "a;b", "%;%\n%", "line one\nline two\n"];
    for text in texts.iter() {
        let written = escape_text(text);
        assert!(!written.contains(';'), "for {:?}", text);
        assert!(!written.contains('\n'), "for {:?}", text);
    }
}

#[test]
fn codes_are_read_back() {
    assert_eq!(unescape_text(""), "");
    assert_eq!(unescape_text("%3B"), ";");
    assert_eq!(unescape_text("%0A"), "\n");
    assert_eq!(unescape_text("%25"), "%");
    assert_eq!(unescape_text("a%3Bb%0Ac%25d"), "a;b\nc%d");
    assert_eq!(unescape_text("%253B"), "%3B");
    assert_eq!(unescape_text("plain"), "plain");
}

#[test]
fn what_is_no_code_is_read_as_it_stands() {
    assert_eq!(unescape_text("%"), "%");
    assert_eq!(unescape_text("%2"), "%2");
    assert_eq!(unescape_text("%3b"), "%3b");
    assert_eq!(unescape_text("%0a"), "%0a");
    assert_eq!(unescape_text("%41"), "%41");
    assert_eq!(unescape_text("100%"), "100%");
    assert_eq!(unescape_text("%%25"), "%%");
    assert_eq!(unescape_text("%%3B"), "%;");
    assert_eq!(unescape_text("a;b"), "a;b");
}

#[test]
fn reading_undoes_writing() {
    let texts = [
        "", "%", "%%", "%25", "%2", "%3", "%3B", ";", "\n", "a;b\nc", "%;\n", "25", "%0A%0A",
        "/home/alice", "ü%ü;ü\n", "%%%%%%", ";;;;", "\n\n\n",
    ];
    for text in texts.iter() {
        assert_eq!(unescape_text(&escape_text(text)), *text, "for {:?}", text);
    }
}
