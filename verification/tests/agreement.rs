use tarx::error::UsageError;
use tarx::extension::{detect, strip_extension, Extension};
use tarx::password::typed_password;

const TEXTS: [(&str, Extension); 8] = [
    (".rar", Extension::Rar),
    (".7z", Extension::SevenZ),
    (".tar.bz2", Extension::TarBzTwo),
    (".tar.gz", Extension::TarGz),
    (".tar.xz", Extension::TarXz),
    (".tar", Extension::Tar),
    (".tgz", Extension::Tgz),
    (".zip", Extension::Zip),
];

/// Detection said with the standard library: lower the name, look for a dot, and try the
/// extensions in turn.
fn by_ending(name: &str) -> Result<Extension, UsageError> {
    let lowered = name.to_ascii_lowercase();
    if !lowered.contains('.') {
        return Err(UsageError::NoExtension);
    }
    for (text, extension) in TEXTS {
        if lowered.ends_with(text) {
            return Ok(extension);
        }
    }
    Err(UsageError::UnrecognizedExtension)
}

/// The typed line read by taking characters off its end.
fn by_popping(line: &str) -> Result<String, UsageError> {
    let mut text = line.to_string();
    if text.pop() != Some('\n') {
        return Err(UsageError::MissingNewline);
    }
    if let Some(last) = text.pop() {
        if last != '\r' {
            text.push(last);
        }
    }
    if text.contains('\n') || text.contains('\r') {
        return Err(UsageError::LineBreakInPassword);
    }
    Ok(text)
}

fn strings_over(alphabet: &[char], longest: usize) -> Vec<String> {
    let mut all = vec![String::new()];
    let mut last = vec![String::new()];
    for _ in 0..longest {
        let mut next = Vec::new();
        for s in &last {
            for c in alphabet {
                let mut longer = s.clone();
                longer.push(*c);
                next.push(longer);
            }
        }
        all.extend(next.iter().cloned());
        last = next;
    }
    all
}

#[test]
fn detection_agrees_on_short_names() {
    for name in strings_over(&['.', 'a', 'r', 't', 'z', '7', 'g', 'Z', 'é'], 5) {
        assert_eq!(detect(&name), by_ending(&name), "{name}");
    }
}

#[test]
fn detection_agrees_on_names_made_of_the_words() {
    let parts = ["", ".", "a", "x.", ".x", "rar", "7z", "tar", "TAR", ".tar", "tar.", "gz", ".gz", "bz2", "xz", "tgz", "zip", "Zip"];
    for first in parts {
        for second in parts {
            for third in parts {
                let name = format!("{first}{second}{third}");
                assert_eq!(detect(&name), by_ending(&name), "{name}");
            }
        }
    }
}

#[test]
fn detection_does_not_depend_on_the_order_of_trial() {
    for name in strings_over(&['.', 'a', 'r', 't', 'z', '7', 'g', 'x'], 5) {
        let lowered = name.to_ascii_lowercase();
        let carried: Vec<Extension> =
            TEXTS.iter().filter(|(text, _)| lowered.ends_with(text)).map(|(_, e)| *e).collect();
        assert!(carried.len() <= 1, "{name}");
        match detect(&name) {
            Ok(extension) => assert_eq!(carried, vec![extension], "{name}"),
            Err(_) => assert!(carried.is_empty(), "{name}"),
        }
    }
}

#[test]
fn what_is_detected_can_be_stripped_from_the_lowered_name() {
    for name in strings_over(&['.', 'a', 'R', 't', 'Z', '7', 'p', 'i'], 5) {
        if let Ok(extension) = detect(&name) {
            let lowered = name.to_ascii_lowercase();
            let stem = strip_extension(&lowered, extension.as_str()).unwrap();
            assert_eq!(format!("{}{}", stem, extension.as_str()), lowered);
        }
    }
}

#[test]
fn stripping_agrees_with_the_standard_library() {
    let names = strings_over(&['.', 'a', 'r', 'T', 'ñ'], 4);
    let endings = strings_over(&['.', 'a', 'r', 'T', 'ñ'], 2);
    for name in &names {
        for ending in &endings {
            let expected = name.strip_suffix(ending.as_str()).ok_or(UsageError::ExtensionNotRemovable);
            assert_eq!(strip_extension(name, ending), expected, "{name} {ending}");
        }
    }
}

#[test]
fn typed_lines_agree_on_short_lines() {
    for line in strings_over(&['\n', '\r', 'a', 'ß'], 6) {
        assert_eq!(typed_password(&line), by_popping(&line), "{line:?}");
    }
}
