use galatea::error::{Failure, Phase};
use galatea::text::{
    after_last_index, chars_of, decimal_text, directory_of, has_suffix, is_space_char, join,
    last_segment_of, matches_ignoring_ascii_case, same_chars, same_text, signed_decimal_text,
    split, to_lower_ascii, trim, trim_bounds,
};

#[test]
fn characters_and_comparison() {
    assert_eq!(chars_of("aé✓"), vec!['a', 'é', '✓']);
    assert!(chars_of("").is_empty());
    assert!(same_text("abc", "abc"));
    assert!(!same_text("abc", "abd"));
    assert!(!same_text("abc", "ab"));
    assert!(same_text("", ""));
    let x = chars_of("hello");
    assert!(same_chars(&x, 1, 3, &chars_of("el")));
    assert!(!same_chars(&x, 1, 3, &chars_of("ll")));
    assert!(!same_chars(&x, 1, 3, &chars_of("e")));
    assert!(same_chars(&x, 2, 2, &chars_of("")));
    assert!(!same_chars(&x, 3, 2, &chars_of("")));
    assert!(!same_chars(&x, 4, 6, &chars_of("o!")));
}

#[test]
fn white_space_is_that_of_unicode() {
    for c in [' ', '\t', '\n', '\u{b}', '\u{c}', '\r', '\u{85}', '\u{a0}', '\u{1680}', '\u{2000}',
        '\u{200a}', '\u{2028}', '\u{2029}', '\u{202f}', '\u{205f}', '\u{3000}']
    {
        assert!(is_space_char(c), "{:?}", c);
        assert!(c.is_whitespace());
    }
    for c in ['a', '0', '\u{8}', '\u{e}', '\u{200b}', '\u{feff}', '\u{180e}', '_'] {
        assert!(!is_space_char(c), "{:?}", c);
        assert!(!c.is_whitespace());
    }
}

#[test]
fn trim_agrees_with_the_standard_library() {
    for s in ["", " ", "a", "  a b  ", "\t\nx\r\n", "\u{3000}x y\u{a0}", "no-space", " \u{200b} "] {
        assert_eq!(trim(s), s.trim(), "{:?}", s);
    }
    assert_eq!(trim_bounds(&chars_of("  ab ")), (2, 4));
    assert_eq!(trim_bounds(&chars_of("   ")), (3, 3));
    assert_eq!(trim_bounds(&chars_of("")), (0, 0));
}

#[test]
fn suffixes_and_segments() {
    assert!(has_suffix("a.zip", ".zip"));
    assert!(has_suffix("a.zip", ""));
    assert!(has_suffix(".zip", ".zip"));
    assert!(!has_suffix("zip", ".zip"));
    assert!(!has_suffix("a.zip ", ".zip"));
    assert_eq!(last_segment_of("http://x/a/b.tgz", '/'), "b.tgz");
    assert_eq!(last_segment_of("b.tgz", '/'), "b.tgz");
    assert_eq!(last_segment_of("http://x/a/", '/'), "");
    assert_eq!(last_segment_of("", '/'), "");
    assert_eq!(last_segment_of("/", '/'), "");
    assert_eq!(last_segment_of("a/é✓", '/'), "é✓");
}

#[test]
fn ascii_case_is_folded_and_nothing_else() {
    assert_eq!(to_lower_ascii('A'), 'a');
    assert_eq!(to_lower_ascii('Z'), 'z');
    assert_eq!(to_lower_ascii('a'), 'a');
    assert_eq!(to_lower_ascii('@'), '@');
    assert_eq!(to_lower_ascii('['), '[');
    assert_eq!(to_lower_ascii('É'), 'É');
    assert!(matches_ignoring_ascii_case("BaSh", "bash"));
    assert!(matches_ignoring_ascii_case("bash", "bash"));
    assert!(!matches_ignoring_ascii_case("bash", "BASH"));
    assert!(!matches_ignoring_ascii_case("bas", "bash"));
    assert!(matches_ignoring_ascii_case("", ""));
}

#[test]
fn numbers_are_written_in_decimal() {
    assert_eq!(decimal_text(0), "0");
    assert_eq!(decimal_text(7), "7");
    assert_eq!(decimal_text(10), "10");
    assert_eq!(decimal_text(4096), "4096");
    assert_eq!(decimal_text(u64::MAX), "18446744073709551615");
    assert_eq!(signed_decimal_text(0), "0");
    assert_eq!(signed_decimal_text(-1), "-1");
    assert_eq!(signed_decimal_text(255), "255");
    assert_eq!(signed_decimal_text(i64::MIN), "-9223372036854775808");
    assert_eq!(signed_decimal_text(i64::MAX), "9223372036854775807");
}

#[test]
fn texts_are_joined_with_a_separator() {
    let v = |items: &[&str]| items.iter().map(|s| s.to_string()).collect::<Vec<String>>();
    assert_eq!(join(&v(&[]), ", "), "");
    assert_eq!(join(&v(&["a"]), ", "), "a");
    assert_eq!(join(&v(&["a", "b", "c"]), ", "), "a, b, c");
    assert_eq!(join(&v(&["", ""]), "-"), "-");
}

#[test]
fn phases_have_their_words() {
    assert_eq!(Phase::Install.name(), "install");
    assert_eq!(Phase::Uninstall.name(), "uninstall");
    assert_eq!(Phase::Reset.name(), "reset");
    assert_eq!(Phase::Remediate.name(), "remediate");
}

#[test]
fn failures_say_what_went_wrong() {
    let s = |x: &str| x.to_string();
    assert_eq!(Failure::InvalidSource { url: s("http://x/") }.message(), "Invalid URL: http://x/");
    assert_eq!(
        Failure::Transport { status: Some(404), cause: s("HTTP error") }.message(),
        "HTTP error: 404"
    );
    assert_eq!(
        Failure::Transport { status: None, cause: s("timed out") }.message(),
        "Download failed: timed out"
    );
    assert_eq!(Failure::Extract { detail: s("bad entry") }.message(), "Extraction failed: bad entry");
    assert_eq!(Failure::NotFound { dir: s("/t") }.message(), "No script found in directory /t");
    assert_eq!(Failure::Execution { code: 1 }.message(), "Process failed with exit code: 1");
    assert_eq!(Failure::Execution { code: -1 }.message(), "Process failed with exit code: -1");
    assert_eq!(Failure::Timeout { seconds: 30 }.message(), "Command timed out after 30 seconds");
    assert_eq!(Failure::StateIo { detail: s("denied") }.message(), "State file error: denied");
    assert_eq!(Failure::NotInstalled { task: s("A") }.message(), "Task is not installed: A");
    assert_eq!(Failure::TaskNotFound { task: s("A") }.message(), "Task not found: A");
    assert_eq!(Failure::NoSuchUnit { index: 12 }.message(), "Unit with index 12 not found");
    assert_eq!(Failure::Unexpected.message(), "Unexpected reply");
    let both = Failure::BothFailed {
        ansible: Box::new(Failure::Execution { code: 2 }),
        bash: Box::new(Failure::NotFound { dir: s("/t") }),
    };
    assert_eq!(
        both.message(),
        "Both ansible and bash failed: Process failed with exit code: 2; No script found in directory /t"
    );
    let stack = Failure::Stack {
        phase: Phase::Install,
        stack: s("S"),
        failed: vec![(s("B"), s("Task not found")), (s("C"), s("Process failed with exit code: 1"))],
        total: 3,
    };
    assert_eq!(stack.message(), "Failed to install 2 out of 3 tasks in stack S: B, C");
}

#[test]
fn a_text_is_split_at_every_separator() {
    let parts = |s: &str| -> Vec<String> {
        split(s, '/').into_iter().map(|p| p.into_iter().collect()).collect()
    };
    assert_eq!(parts("a/b/c"), vec!["a", "b", "c"]);
    assert_eq!(parts("a"), vec!["a"]);
    assert_eq!(parts(""), vec![""]);
    assert_eq!(parts("/"), vec!["", ""]);
    assert_eq!(parts("a//b/"), vec!["a", "", "b", ""]);
    for s in ["", "/", "a", "/a/b", "a//b/", "é/✓"] {
        let expected: Vec<String> = s.split('/').map(|p| p.to_string()).collect();
        assert_eq!(parts(s), expected);
    }
}

#[test]
fn the_directory_of_a_path_precedes_its_last_slash() {
    assert_eq!(after_last_index(&chars_of("a/b/c"), '/'), 4);
    assert_eq!(after_last_index(&chars_of("abc"), '/'), 0);
    assert_eq!(after_last_index(&chars_of("/abc"), '/'), 1);
    assert_eq!(after_last_index(&chars_of(""), '/'), 0);
    assert_eq!(directory_of("/a/b/c"), "/a/b");
    assert_eq!(directory_of("/a"), "/");
    assert_eq!(directory_of("a"), ".");
    assert_eq!(directory_of("a/b/"), "a/b");
}
