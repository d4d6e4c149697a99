//! From a request to a job: the decisions that are taken, in their order,
//! before an archive is opened. The path is read first, component by
//! component; the rest follows from the file name and the options.
use vstd::prelude::*;
use vstd::string::StringSliceAdditionalSpecFns;
use vstd::utf8::{decode_utf8, valid_utf8};
use crate::error::UsageError;
use crate::extension::{detect, detected, Extension, FileType};
use crate::password::{chosen_source, password_source, typed, typed_password, PasswordSource};

verus! {

/// What is to be done with an archive.
#[derive(Debug, PartialEq, Eq)]
pub struct Job {
    /// The extension that the file name selected.
    pub extension: Extension,
    /// The password to open the archive with, if any.
    pub password: Option<String>,
    /// Whether the entries are listed instead of extracted.
    pub list_files: bool,
}

/// A job, with its password as a sequence of characters.
pub ghost struct JobView {
    pub extension: Extension,
    pub password: Option<Seq<char>>,
    pub list_files: bool,
}

/// A request that waits for the user to type the password.
#[derive(Clone, Copy, Debug, PartialEq, Eq, Structural)]
pub struct Pending {
    /// The extension that the file name selected.
    pub extension: Extension,
    /// Whether the entries are listed instead of extracted.
    pub list_files: bool,
}

/// What the caller does next.
#[derive(Debug, PartialEq, Eq)]
pub enum Prepared {
    /// Nothing is missing: carry out the job.
    Ready(Job),
    /// Ask for the password, then call `complete` with the typed line.
    AskPassword(Pending),
}

/// `Prepared`, with the job by its view.
pub ghost enum PreparedView {
    Ready(JobView),
    AskPassword(Pending),
}

/// An optional string as an optional sequence of characters.
pub open spec fn chars_in(text: Option<String>) -> Option<Seq<char>> {
    match text {
        Some(s) => Some(s@),
        None => None,
    }
}

impl View for Job {
    type V = JobView;

    open spec fn view(&self) -> JobView {
        JobView {
            extension: self.extension,
            password: chars_in(self.password),
            list_files: self.list_files,
        }
    }
}

impl View for Prepared {
    type V = PreparedView;

    open spec fn view(&self) -> PreparedView {
        match self {
            Prepared::Ready(job) => PreparedView::Ready(job@),
            Prepared::AskPassword(pending) => PreparedView::AskPassword(*pending),
        }
    }
}

impl Job {
    /// The format of the archive.
    pub fn file_type(&self) -> (r: FileType)
        ensures
            r == self.extension.kind(),
    {
        self.extension.file_type()
    }
}

/// A component of a path as text: its characters where its bytes are
/// well-formed UTF-8.
pub open spec fn component_text(bytes: Seq<u8>) -> Result<Seq<char>, UsageError> {
    if valid_utf8(bytes) {
        Ok(decode_utf8(bytes))
    } else {
        Err(UsageError::PathNotUtf8)
    }
}

/// Reads a component of a path, the file name among them, as text. A path
/// is accepted where each of its components is.
pub fn path_component(bytes: &[u8]) -> (r: Result<&str, UsageError>)
    ensures
        match r {
            Ok(text) => component_text(bytes@) == Ok::<Seq<char>, UsageError>(text@)
                && text.spec_bytes() == bytes@,
            Err(e) => component_text(bytes@) == Err::<Seq<char>, UsageError>(e),
        },
{
    broadcast use vstd::utf8::encode_utf8_decode_utf8;

    match core::str::from_utf8(bytes) {
        Ok(text) => Ok(text),
        Err(_) => Err(UsageError::PathNotUtf8),
    }
}

/// The rule on listings: only the entries of a listable format are listed.
pub open spec fn listing_checked(file_type: FileType, list_files: bool) -> Result<(), UsageError> {
    if list_files && !file_type.listable() {
        Err(UsageError::ListingNotImplemented)
    } else {
        Ok(())
    }
}

/// Refuses a listing of a format whose entries cannot be listed.
pub fn check_listing(file_type: FileType, list_files: bool) -> (r: Result<(), UsageError>)
    ensures
        r == listing_checked(file_type, list_files),
{
    if list_files && !file_type.supports_listing() {
        Err(UsageError::ListingNotImplemented)
    } else {
        Ok(())
    }
}

/// The job for an extension and a password, once the password is known.
pub open spec fn job_for(extension: Extension, password: Option<Seq<char>>, list_files: bool) -> Result<
    JobView,
    UsageError,
> {
    match listing_checked(extension.kind(), list_files) {
        Err(e) => Err(e),
        Ok(_) => Ok(JobView { extension, password, list_files }),
    }
}

/// What a request leads to. The decisions are taken in this order: the
/// extension, then the source of the password, then, unless the password has
/// yet to be typed, the listing.
pub open spec fn prepared(
    file_name: Seq<char>,
    password: Option<Seq<char>>,
    type_password: bool,
    list_files: bool,
) -> Result<PreparedView, UsageError> {
    match detected(file_name) {
        Err(e) => Err(e),
        Ok(extension) => match chosen_source(extension.kind(), password is Some, type_password) {
            Err(e) => Err(e),
            Ok(PasswordSource::Typed) => Ok(
                PreparedView::AskPassword(Pending { extension, list_files }),
            ),
            Ok(_) => match job_for(extension, password, list_files) {
                Err(e) => Err(e),
                Ok(job) => Ok(PreparedView::Ready(job)),
            },
        },
    }
}

/// What a pending request leads to once the line was typed: the password is
/// read from the line first, then the listing is decided.
pub open spec fn completed(pending: Pending, line: Seq<char>) -> Result<JobView, UsageError> {
    match typed(line) {
        Err(e) => Err(e),
        Ok(password) => job_for(pending.extension, Some(password), pending.list_files),
    }
}

/// Decides what to do with the file named `file_name`, given the password
/// that came with the request, whether the user wants to type one, and
/// whether the entries are to be listed.
pub fn prepare(file_name: &str, password: Option<String>, type_password: bool, list_files: bool) -> (r:
    Result<Prepared, UsageError>)
    ensures
        match r {
            Ok(next) => prepared(file_name@, chars_in(password), type_password, list_files) == Ok::<
                PreparedView,
                UsageError,
            >(next@),
            Err(e) => prepared(file_name@, chars_in(password), type_password, list_files) == Err::<
                PreparedView,
                UsageError,
            >(e),
        },
{
    let extension = match detect(file_name) {
        Ok(extension) => extension,
        Err(e) => {
            return Err(e);
        },
    };
    let source = match password_source(extension.file_type(), password.is_some(), type_password) {
        Ok(source) => source,
        Err(e) => {
            return Err(e);
        },
    };
    match source {
        PasswordSource::Typed => Ok(Prepared::AskPassword(Pending { extension, list_files })),
        PasswordSource::Absent | PasswordSource::Given => {
            match check_listing(extension.file_type(), list_files) {
                Ok(_) => Ok(Prepared::Ready(Job { extension, password, list_files })),
                Err(e) => Err(e),
            }
        },
    }
}

/// Finishes a pending request with the line that the user typed.
pub fn complete(pending: Pending, line: &str) -> (r: Result<Job, UsageError>)
    ensures
        match r {
            Ok(job) => completed(pending, line@) == Ok::<JobView, UsageError>(job@),
            Err(e) => completed(pending, line@) == Err::<JobView, UsageError>(e),
        },
{
    let password = match typed_password(line) {
        Ok(password) => password,
        Err(e) => {
            return Err(e);
        },
    };
    match check_listing(pending.extension.file_type(), pending.list_files) {
        Ok(_) => Ok(
            Job {
                extension: pending.extension,
                password: Some(password),
                list_files: pending.list_files,
            },
        ),
        Err(e) => Err(e),
    }
}

} // verus!
