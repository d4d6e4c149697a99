//! What can be wrong with a request before any archive is opened.
use vstd::prelude::*;

verus! {

/// A request that cannot be carried out as it was given.
#[derive(Clone, Copy, Debug, PartialEq, Eq, Structural)]
pub enum UsageError {
    /// A component of the path is not UTF-8.
    PathNotUtf8,
    /// The file name holds no dot.
    NoExtension,
    /// The file name ends with none of the supported extensions.
    UnrecognizedExtension,
    /// The typed line does not end with a newline.
    MissingNewline,
    /// A carriage return or a newline stands inside the typed password.
    LineBreakInPassword,
    /// A password was given and a typed one was asked for as well.
    ConflictingPasswordOptions,
    /// A password option was used with a format that is never encrypted.
    EncryptionNotSupported,
    /// A listing was asked for of a format whose entries cannot be listed.
    ListingNotImplemented,
    /// The file name does not end with the extension that is to be removed.
    ExtensionNotRemovable,
}

impl UsageError {
    /// The sentence shown to the user for each error.
    pub open spec fn text(self) -> Seq<char> {
        match self {
            UsageError::PathNotUtf8 => "A component of the path is not a valid UTF-8 string"@,
            UsageError::NoExtension => "Only files with extensions are supported"@,
            UsageError::UnrecognizedExtension => "Unrecognized file extension"@,
            UsageError::MissingNewline => "Typed password input does not end with a newline character"@,
            UsageError::LineBreakInPassword => "Typed password input contains a carriage return or newline character. Passwords containing these characters are not supported via the typed password input option. Try using the \"--password\"/\"-p\" option instead."@,
            UsageError::ConflictingPasswordOptions => "\"--password\"/\"-p\" and \"--type-password\"/\"-t\" cannot be used at the same time"@,
            UsageError::EncryptionNotSupported => "Encryption is only supported for .7z, .rar, and .zip files. Remove the \"--password\"/\"-p\" option and/or the \"--type-password\"/\"-t\" option."@,
            UsageError::ListingNotImplemented => "Listing files is not currently implemented for .7z and .zip files"@,
            UsageError::ExtensionNotRemovable => "Could not remove extension from file name"@,
        }
    }

    /// Gives the sentence for this error.
    pub fn message(&self) -> (r: &'static str)
        ensures
            r@ == self.text(),
    {
        match self {
            UsageError::PathNotUtf8 => "A component of the path is not a valid UTF-8 string",
            UsageError::NoExtension => "Only files with extensions are supported",
            UsageError::UnrecognizedExtension => "Unrecognized file extension",
            UsageError::MissingNewline => "Typed password input does not end with a newline character",
            UsageError::LineBreakInPassword => "Typed password input contains a carriage return or newline character. Passwords containing these characters are not supported via the typed password input option. Try using the \"--password\"/\"-p\" option instead.",
            UsageError::ConflictingPasswordOptions => "\"--password\"/\"-p\" and \"--type-password\"/\"-t\" cannot be used at the same time",
            UsageError::EncryptionNotSupported => "Encryption is only supported for .7z, .rar, and .zip files. Remove the \"--password\"/\"-p\" option and/or the \"--type-password\"/\"-t\" option.",
            UsageError::ListingNotImplemented => "Listing files is not currently implemented for .7z and .zip files",
            UsageError::ExtensionNotRemovable => "Could not remove extension from file name",
        }
    }
}

} // verus!
