use ftl_locale::Locale;

const FTL: &str = "hello-world = Hello, World!\n    .special = Hello, Special World!\n    .arg = Hello, { $world-type } World!\n";

#[test]
fn repeated_calls_return_identical_text() {
    let locale = Locale::new(FTL.to_string()).unwrap();

    let first = locale
        .get_message("hello-world", Some("arg"), &[("world-type", "Custom")])
        .unwrap();
    let second = locale
        .get_message("hello-world", Some("arg"), &[("world-type", "Custom")])
        .unwrap();

    assert_eq!(first, second);
}

#[test]
fn isolation_marks_preserved_verbatim() {
    let locale = Locale::new(FTL.to_string()).unwrap();

    let text = locale
        .get_message("hello-world", Some("arg"), &[("world-type", "Custom")])
        .unwrap();

    assert!(text.contains('\u{2068}'));
    assert!(text.contains('\u{2069}'));
    assert_eq!("Hello, \u{2068}Custom\u{2069} World!", text);
}

#[test]
fn unreferenced_args_match_empty_args() {
    let locale = Locale::new(FTL.to_string()).unwrap();

    let with_none = locale.get_message("hello-world", None, &[]).unwrap();
    let with_unused = locale
        .get_message("hello-world", None, &[("unused", "x"), ("also-unused", "y")])
        .unwrap();

    assert_eq!(with_none, with_unused);
    assert_eq!("Hello, World!", with_unused);
}

#[test]
fn last_write_wins_on_duplicate_arg_names() {
    let locale = Locale::new(FTL.to_string()).unwrap();

    let duplicated = locale
        .get_message(
            "hello-world",
            Some("arg"),
            &[("world-type", "Ignored"), ("world-type", "Custom")],
        )
        .unwrap();
    let single = locale
        .get_message("hello-world", Some("arg"), &[("world-type", "Custom")])
        .unwrap();

    assert_eq!(duplicated, single);
    assert_eq!("Hello, \u{2068}Custom\u{2069} World!", duplicated);
}

#[test]
fn missing_referenced_arg_still_succeeds() {
    let locale = Locale::new(FTL.to_string()).unwrap();

    // The formatter emits a placeholder for the unresolved reference and
    // records a diagnostic; the facade still returns its output.
    let r = locale.get_message("hello-world", Some("arg"), &[]);

    assert!(r.is_ok());
}
