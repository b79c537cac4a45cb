use ftl_locale::{Locale, LocaleError};

const FTL: &str = "hello-world = Hello, World!\n    .special = Hello, Special World!\n    .arg = Hello, { $world-type } World!\n";

#[test]
fn plain_message() {
    let locale = Locale::new(FTL.to_string()).unwrap();

    assert_eq!(
        "Hello, World!",
        locale.get_message("hello-world", None, &[]).unwrap()
    );
}

#[test]
fn attribute_message() {
    let locale = Locale::new(FTL.to_string()).unwrap();

    assert_eq!(
        "Hello, Special World!",
        locale
            .get_message("hello-world", Some("special"), &[])
            .unwrap()
    );
}

#[test]
fn argument_message() {
    let locale = Locale::new(FTL.to_string()).unwrap();

    // Note: here we add special characters. They are not printable.
    // Fluent add it in output for some advance formatting.
    assert_eq!(
        "Hello, \u{2068}Custom\u{2069} World!",
        locale
            .get_message("hello-world", Some("arg"), &[("world-type", "Custom")])
            .unwrap()
    );
}

#[test]
fn message_missing() {
    let locale = Locale::new(FTL.to_string()).unwrap();

    assert_eq!(
        Err(LocaleError::MessageMissing),
        locale.get_message("no-such-key", None, &[])
    );
}

#[test]
fn message_missing_beats_bad_attribute_and_args() {
    let locale = Locale::new(FTL.to_string()).unwrap();

    assert_eq!(
        Err(LocaleError::MessageMissing),
        locale.get_message("no-such-key", Some("no-such-attr"), &[("unused", "x")])
    );
}

#[test]
fn attribute_missing() {
    let locale = Locale::new(FTL.to_string()).unwrap();

    assert_eq!(
        Err(LocaleError::AttributeMissing),
        locale.get_message("hello-world", Some("no-such-attr"), &[])
    );
}

#[test]
fn attribute_missing_beats_args() {
    let locale = Locale::new(FTL.to_string()).unwrap();

    assert_eq!(
        Err(LocaleError::AttributeMissing),
        locale.get_message("hello-world", Some("no-such-attr"), &[("unused", "x")])
    );
}

#[test]
fn message_value_missing() {
    let locale =
        Locale::new("only-attrs =\n    .greeting = Hi!\n".to_string()).unwrap();

    assert_eq!(
        Err(LocaleError::MessageValueMissing),
        locale.get_message("only-attrs", None, &[])
    );
    assert_eq!(
        "Hi!",
        locale.get_message("only-attrs", Some("greeting"), &[]).unwrap()
    );
}

#[test]
fn resource_corrupted() {
    let r = Locale::new("=== not valid message-format ===".to_string());

    assert!(matches!(r, Err(LocaleError::ResourceCorrupted)));
}

#[test]
fn bundle_rejected_on_duplicate_ids() {
    let r = Locale::new("dup = One\ndup = Two\n".to_string());

    assert!(matches!(r, Err(LocaleError::BundleRejected)));
}

#[test]
fn error_texts() {
    assert_eq!(
        "Error! Fluent resource file is corrupted.",
        LocaleError::ResourceCorrupted.text()
    );
    assert_eq!(
        "Error! Bundle can not accept this resource.",
        LocaleError::BundleRejected.text()
    );
    assert_eq!("Error! Message doesn't exist!", LocaleError::MessageMissing.text());
    assert_eq!("Error! Attribute dosn't exist!", LocaleError::AttributeMissing.text());
    assert_eq!(
        "Error! Message value dosn't exist!",
        LocaleError::MessageValueMissing.text()
    );
}

#[test]
fn default_locale_holds_no_messages() {
    let locale = Locale::default();

    assert_eq!(
        Err(LocaleError::MessageMissing),
        locale.get_message("hello-world", None, &[])
    );
}
