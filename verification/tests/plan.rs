use tarx::error::UsageError;
use tarx::extension::{Extension, FileType};
use tarx::plan::{check_listing, complete, path_component, prepare, Job, Pending, Prepared};

fn ready(extension: Extension, password: Option<&str>, list_files: bool) -> Result<Prepared, UsageError> {
    Ok(Prepared::Ready(Job { extension, password: password.map(str::to_string), list_files }))
}

#[test]
fn a_plain_request_is_ready() {
    assert_eq!(prepare("a.tar", None, false, false), ready(Extension::Tar, None, false));
    assert_eq!(prepare("a.tgz", None, false, true), ready(Extension::Tgz, None, true));
    assert_eq!(prepare("A.ZIP", None, false, false), ready(Extension::Zip, None, false));
}

#[test]
fn a_given_password_goes_into_the_job() {
    assert_eq!(
        prepare("a.zip", Some("pw".to_string()), false, false),
        ready(Extension::Zip, Some("pw"), false)
    );
    assert_eq!(
        prepare("a.rar", Some(String::new()), false, true),
        ready(Extension::Rar, Some(""), true)
    );
}

#[test]
fn a_typed_password_is_asked_for() {
    assert_eq!(
        prepare("a.7z", None, true, false),
        Ok(Prepared::AskPassword(Pending { extension: Extension::SevenZ, list_files: false }))
    );
}

#[test]
fn the_extension_is_decided_first() {
    assert_eq!(prepare("a", Some("pw".to_string()), true, true), Err(UsageError::NoExtension));
    assert_eq!(prepare("a.txt", Some("pw".to_string()), true, true), Err(UsageError::UnrecognizedExtension));
}

#[test]
fn an_extension_that_only_ends_like_a_supported_one_is_refused() {
    assert_eq!(prepare("x.star", None, false, true), Err(UsageError::UnrecognizedExtension));
    assert_eq!(prepare("x.star", None, false, false), Err(UsageError::UnrecognizedExtension));
    assert_eq!(prepare("notes.unzip", None, true, false), Err(UsageError::UnrecognizedExtension));
    assert_eq!(
        prepare("x.star.tar", None, false, true),
        Ok(Prepared::Ready(Job { extension: Extension::Tar, password: None, list_files: true }))
    );
}

#[test]
fn the_password_is_decided_before_the_listing() {
    assert_eq!(
        prepare("a.zip", Some("pw".to_string()), true, true),
        Err(UsageError::ConflictingPasswordOptions)
    );
    assert_eq!(prepare("a.tar", Some("pw".to_string()), false, true), Err(UsageError::EncryptionNotSupported));
    assert_eq!(prepare("a.tar.gz", None, true, false), Err(UsageError::EncryptionNotSupported));
}

#[test]
fn the_password_is_asked_for_before_the_listing_is_refused() {
    let pending = Pending { extension: Extension::Zip, list_files: true };
    assert_eq!(prepare("a.zip", None, true, true), Ok(Prepared::AskPassword(pending)));
    assert_eq!(complete(pending, "pw\n"), Err(UsageError::ListingNotImplemented));
    assert_eq!(complete(pending, "pw"), Err(UsageError::MissingNewline));
    assert_eq!(complete(pending, "p\rw\n"), Err(UsageError::LineBreakInPassword));
}

#[test]
fn a_listing_of_seven_z_or_zip_is_refused() {
    assert_eq!(prepare("a.zip", None, false, true), Err(UsageError::ListingNotImplemented));
    assert_eq!(prepare("a.7z", Some("pw".to_string()), false, true), Err(UsageError::ListingNotImplemented));
}

#[test]
fn a_typed_line_completes_the_job() {
    let pending = Pending { extension: Extension::Rar, list_files: true };
    assert_eq!(
        complete(pending, "secret\r\n"),
        Ok(Job { extension: Extension::Rar, password: Some("secret".to_string()), list_files: true })
    );
    let pending = Pending { extension: Extension::SevenZ, list_files: false };
    assert_eq!(
        complete(pending, "\n"),
        Ok(Job { extension: Extension::SevenZ, password: Some(String::new()), list_files: false })
    );
}

#[test]
fn a_job_knows_its_file_type() {
    let job = Job { extension: Extension::Tgz, password: None, list_files: false };
    assert_eq!(job.file_type(), FileType::TarGz);
}

#[test]
fn listings_are_checked_by_file_type() {
    assert_eq!(check_listing(FileType::Zip, true), Err(UsageError::ListingNotImplemented));
    assert_eq!(check_listing(FileType::SevenZ, true), Err(UsageError::ListingNotImplemented));
    assert_eq!(check_listing(FileType::Zip, false), Ok(()));
    assert_eq!(check_listing(FileType::SevenZ, false), Ok(()));
    for file_type in [FileType::Rar, FileType::Tar, FileType::TarBzTwo, FileType::TarGz, FileType::TarXz] {
        assert_eq!(check_listing(file_type, true), Ok(()));
        assert_eq!(check_listing(file_type, false), Ok(()));
    }
}

#[test]
fn a_component_in_utf8_is_read() {
    assert_eq!(path_component(b"archive.tar.gz"), Ok("archive.tar.gz"));
    assert_eq!(path_component("Überraschung 😀.zip".as_bytes()), Ok("Überraschung 😀.zip"));
    assert_eq!(path_component(b""), Ok(""));
    assert_eq!(path_component(b"/"), Ok("/"));
}

#[test]
fn a_component_that_is_not_utf8_is_refused() {
    assert_eq!(path_component(&[b'a', 0xff, b'.', b'z', b'i', b'p']), Err(UsageError::PathNotUtf8));
    assert_eq!(path_component(&[0xc3]), Err(UsageError::PathNotUtf8));
    assert_eq!(path_component(&[0xed, 0xa0, 0x80]), Err(UsageError::PathNotUtf8));
    assert_eq!(path_component(&[0xc0, 0xaf]), Err(UsageError::PathNotUtf8));
}

#[test]
fn a_file_name_that_was_read_is_then_detected() {
    let name = path_component(b"Backup.TAR.GZ").unwrap();
    assert_eq!(
        prepare(name, None, false, false),
        Ok(Prepared::Ready(Job { extension: Extension::TarGz, password: None, list_files: false }))
    );
}
