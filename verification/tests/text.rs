use tarx::error::UsageError;
use tarx::text::{chars_of, contains_dot, decimal_string, ends_with, lowered_chars, to_lower};

fn chars(s: &str) -> Vec<char> {
    s.chars().collect()
}

#[test]
fn ascii_capitals_are_lowered() {
    assert_eq!(to_lower('A'), 'a');
    assert_eq!(to_lower('M'), 'm');
    assert_eq!(to_lower('Z'), 'z');
    for c in 'A'..='Z' {
        assert_eq!(to_lower(c), c.to_ascii_lowercase());
    }
}

#[test]
fn other_characters_stay() {
    for c in ['a', 'z', '0', '9', '.', '@', '[', '`', '{', ' ', 'Ä', 'É', '\u{212A}', '😀', '\0'] {
        assert_eq!(to_lower(c), c);
        assert_eq!(to_lower(c), c.to_ascii_lowercase());
    }
}

#[test]
fn the_characters_of_a_string() {
    assert_eq!(chars_of(""), chars(""));
    assert_eq!(chars_of("a.Tar"), vec!['a', '.', 'T', 'a', 'r']);
    assert_eq!(chars_of("ñ😀"), vec!['ñ', '😀']);
}

#[test]
fn the_lowered_characters_of_a_string() {
    assert_eq!(lowered_chars(""), chars(""));
    assert_eq!(lowered_chars("A.Tar.GZ"), chars("a.tar.gz"));
    assert_eq!(lowered_chars("ÄB😀"), chars("Äb😀"));
    for s in ["Hello World", "MiXeD.7Z", "ÀÉÎ.Zip"] {
        assert_eq!(lowered_chars(s), chars(&s.to_ascii_lowercase()));
    }
}

#[test]
fn endings() {
    assert!(ends_with(&chars("a.tar"), &chars("tar")));
    assert!(ends_with(&chars("tar"), &chars("tar")));
    assert!(ends_with(&chars("tar"), &chars("")));
    assert!(ends_with(&chars(""), &chars("")));
    assert!(!ends_with(&chars("ar"), &chars("tar")));
    assert!(!ends_with(&chars(""), &chars("t")));
    assert!(!ends_with(&chars("a.tar"), &chars("rar")));
    assert!(!ends_with(&chars("a.tar"), &chars("ta")));
    assert!(!ends_with(&chars("a.tar"), &chars("Tar")));
}

#[test]
fn dots_are_found() {
    assert!(contains_dot(&chars("ab.cd")));
    assert!(contains_dot(&chars(".")));
    assert!(contains_dot(&chars("abcd.")));
    assert!(contains_dot(&chars(".abcd")));
    assert!(!contains_dot(&chars("abcd")));
    assert!(!contains_dot(&chars("")));
    assert!(!contains_dot(&chars("a\u{FF0E}b,c")));
}

#[test]
fn numbers_in_decimal() {
    assert_eq!(decimal_string(0), "0");
    assert_eq!(decimal_string(7), "7");
    assert_eq!(decimal_string(9), "9");
    assert_eq!(decimal_string(10), "10");
    assert_eq!(decimal_string(105), "105");
    assert_eq!(decimal_string(255), "255");
    assert_eq!(decimal_string(1000000), "1000000");
    assert_eq!(decimal_string(4294967295), "4294967295");
    for n in [1_u32, 11, 99, 100, 101, 65535, 65536, 2147483647, 2147483648] {
        assert_eq!(decimal_string(n), n.to_string());
    }
}

#[test]
fn the_messages_of_usage_errors() {
    assert_eq!(
        UsageError::PathNotUtf8.message(),
        "A component of the path is not a valid UTF-8 string"
    );
    assert_eq!(UsageError::NoExtension.message(), "Only files with extensions are supported");
    assert_eq!(UsageError::UnrecognizedExtension.message(), "Unrecognized file extension");
    assert_eq!(
        UsageError::MissingNewline.message(),
        "Typed password input does not end with a newline character"
    );
    assert_eq!(
        UsageError::LineBreakInPassword.message(),
        "Typed password input contains a carriage return or newline character. Passwords containing these characters are not supported via the typed password input option. Try using the \"--password\"/\"-p\" option instead."
    );
    assert_eq!(
        UsageError::ConflictingPasswordOptions.message(),
        "\"--password\"/\"-p\" and \"--type-password\"/\"-t\" cannot be used at the same time"
    );
    assert_eq!(
        UsageError::EncryptionNotSupported.message(),
        "Encryption is only supported for .7z, .rar, and .zip files. Remove the \"--password\"/\"-p\" option and/or the \"--type-password\"/\"-t\" option."
    );
    assert_eq!(
        UsageError::ListingNotImplemented.message(),
        "Listing files is not currently implemented for .7z and .zip files"
    );
    assert_eq!(
        UsageError::ExtensionNotRemovable.message(),
        "Could not remove extension from file name"
    );
}
