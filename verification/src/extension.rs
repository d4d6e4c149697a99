//! File types, the extensions that select them, and how a file name is read.
use vstd::prelude::*;
use crate::error::UsageError;
use crate::text::{
    chars_of, contains_dot, ends_with, has_dot, lemma_lower_keeps_dots, lowered, lowered_chars,
};

verus! {

/// The archive formats that can be extracted.
#[derive(Clone, Copy, Debug, PartialEq, Eq, Structural)]
pub enum FileType {
    Rar,
    SevenZ,
    Tar,
    TarBzTwo,
    TarGz,
    TarXz,
    Zip,
}

impl FileType {
    /// The formats whose archives may be protected by a password.
    pub open spec fn encryptable(self) -> bool {
        self == FileType::Rar || self == FileType::SevenZ || self == FileType::Zip
    }

    /// The formats whose entries can be listed without extracting them.
    pub open spec fn listable(self) -> bool {
        self != FileType::SevenZ && self != FileType::Zip
    }

    /// Computes `encryptable`.
    pub fn supports_password(self) -> (r: bool)
        ensures
            r == self.encryptable(),
    {
        match self {
            FileType::Rar | FileType::SevenZ | FileType::Zip => true,
            FileType::Tar | FileType::TarBzTwo | FileType::TarGz | FileType::TarXz => false,
        }
    }

    /// Computes `listable`.
    pub fn supports_listing(self) -> (r: bool)
        ensures
            r == self.listable(),
    {
        match self {
            FileType::SevenZ | FileType::Zip => false,
            FileType::Rar | FileType::Tar | FileType::TarBzTwo | FileType::TarGz | FileType::TarXz => true,
        }
    }
}

/// The extensions by which a file name selects a format. Two of them select
/// gzip-compressed tar archives.
#[derive(Clone, Copy, Debug, PartialEq, Eq, Structural)]
pub enum Extension {
    Rar,
    SevenZ,
    TarBzTwo,
    TarGz,
    TarXz,
    Tar,
    Tgz,
    Zip,
}

impl Extension {
    /// The extension as it is written at the end of a file name: a dot, then
    /// its letters in lower case.
    pub open spec fn text(self) -> Seq<char> {
        match self {
            Extension::Rar => ".rar"@,
            Extension::SevenZ => ".7z"@,
            Extension::TarBzTwo => ".tar.bz2"@,
            Extension::TarGz => ".tar.gz"@,
            Extension::TarXz => ".tar.xz"@,
            Extension::Tar => ".tar"@,
            Extension::Tgz => ".tgz"@,
            Extension::Zip => ".zip"@,
        }
    }

    /// The format that the extension selects.
    pub open spec fn kind(self) -> FileType {
        match self {
            Extension::Rar => FileType::Rar,
            Extension::SevenZ => FileType::SevenZ,
            Extension::TarBzTwo => FileType::TarBzTwo,
            Extension::TarGz => FileType::TarGz,
            Extension::TarXz => FileType::TarXz,
            Extension::Tar => FileType::Tar,
            Extension::Tgz => FileType::TarGz,
            Extension::Zip => FileType::Zip,
        }
    }

    /// Whether a file name carries this extension: in lower case the name ends
    /// with the text of the extension, its dot included.
    pub open spec fn names(self, file_name: Seq<char>) -> bool {
        self.text().is_suffix_of(lowered(file_name))
    }

    /// Computes `kind`.
    pub fn file_type(self) -> (r: FileType)
        ensures
            r == self.kind(),
    {
        match self {
            Extension::Rar => FileType::Rar,
            Extension::SevenZ => FileType::SevenZ,
            Extension::TarBzTwo => FileType::TarBzTwo,
            Extension::TarGz => FileType::TarGz,
            Extension::TarXz => FileType::TarXz,
            Extension::Tar => FileType::Tar,
            Extension::Tgz => FileType::TarGz,
            Extension::Zip => FileType::Zip,
        }
    }

    /// Gives `text` as a string.
    pub fn as_str(self) -> (r: &'static str)
        ensures
            r@ == self.text(),
    {
        match self {
            Extension::Rar => ".rar",
            Extension::SevenZ => ".7z",
            Extension::TarBzTwo => ".tar.bz2",
            Extension::TarGz => ".tar.gz",
            Extension::TarXz => ".tar.xz",
            Extension::Tar => ".tar",
            Extension::Tgz => ".tgz",
            Extension::Zip => ".zip",
        }
    }

    /// Whether the lower-cased name `name` ends with the text of this
    /// extension.
    fn found_in(self, name: &[char]) -> (r: bool)
        ensures
            r == self.text().is_suffix_of(name@),
    {
        let text = chars_of(self.as_str());
        ends_with(name, text.as_slice())
    }
}

/// What a file name selects: nothing without a dot; otherwise the extension
/// that the name carries, and an error where it carries none of them.
pub open spec fn detected(file_name: Seq<char>) -> Result<Extension, UsageError> {
    if !has_dot(file_name) {
        Err(UsageError::NoExtension)
    } else if Extension::Rar.names(file_name) {
        Ok(Extension::Rar)
    } else if Extension::SevenZ.names(file_name) {
        Ok(Extension::SevenZ)
    } else if Extension::TarBzTwo.names(file_name) {
        Ok(Extension::TarBzTwo)
    } else if Extension::TarGz.names(file_name) {
        Ok(Extension::TarGz)
    } else if Extension::TarXz.names(file_name) {
        Ok(Extension::TarXz)
    } else if Extension::Tar.names(file_name) {
        Ok(Extension::Tar)
    } else if Extension::Tgz.names(file_name) {
        Ok(Extension::Tgz)
    } else if Extension::Zip.names(file_name) {
        Ok(Extension::Zip)
    } else {
        Err(UsageError::UnrecognizedExtension)
    }
}

/// Reads the extension of a file name, without regard to the case of ASCII
/// letters.
pub fn detect(file_name: &str) -> (r: Result<Extension, UsageError>)
    ensures
        r == detected(file_name@),
{
    let lowered_name = lowered_chars(file_name);
    let name = lowered_name.as_slice();
    proof {
        lemma_lower_keeps_dots(file_name@);
    }
    if !contains_dot(name) {
        Err(UsageError::NoExtension)
    } else if Extension::Rar.found_in(name) {
        Ok(Extension::Rar)
    } else if Extension::SevenZ.found_in(name) {
        Ok(Extension::SevenZ)
    } else if Extension::TarBzTwo.found_in(name) {
        Ok(Extension::TarBzTwo)
    } else if Extension::TarGz.found_in(name) {
        Ok(Extension::TarGz)
    } else if Extension::TarXz.found_in(name) {
        Ok(Extension::TarXz)
    } else if Extension::Tar.found_in(name) {
        Ok(Extension::Tar)
    } else if Extension::Tgz.found_in(name) {
        Ok(Extension::Tgz)
    } else if Extension::Zip.found_in(name) {
        Ok(Extension::Zip)
    } else {
        Err(UsageError::UnrecognizedExtension)
    }
}

/// A file name without a given ending, where it has that ending.
pub open spec fn stripped(file_name: Seq<char>, extension: Seq<char>) -> Result<
    Seq<char>,
    UsageError,
> {
    if extension.is_suffix_of(file_name) {
        Ok(file_name.take(file_name.len() - extension.len()))
    } else {
        Err(UsageError::ExtensionNotRemovable)
    }
}

/// Removes `extension` from the end of `file_name`. Case matters here: the
/// name must end with exactly these characters.
pub fn strip_extension<'a>(file_name: &'a str, extension: &str) -> (r: Result<&'a str, UsageError>)
    ensures
        match r {
            Ok(stem) => stripped(file_name@, extension@) == Ok::<Seq<char>, UsageError>(stem@),
            Err(e) => stripped(file_name@, extension@) == Err::<Seq<char>, UsageError>(e),
        },
{
    let name = chars_of(file_name);
    let ending = chars_of(extension);
    if ends_with(name.as_slice(), ending.as_slice()) {
        let kept: usize = name.len() - ending.len();
        Ok(file_name.substring_char(0, kept))
    } else {
        Err(UsageError::ExtensionNotRemovable)
    }
}

/// The last three characters of a sequence that ends with the text of an
/// extension.
proof fn lemma_text_tail(extension: Extension, name: Seq<char>)
    requires
        extension.text().is_suffix_of(name),
    ensures
        name.len() >= 3,
        name[name.len() - 3] == extension.text()[extension.text().len() - 3],
        name[name.len() - 2] == extension.text()[extension.text().len() - 2],
        name[name.len() - 1] == extension.text()[extension.text().len() - 1],
        name[name.len() - extension.text().len()] == '.',
        match extension {
            Extension::Rar => extension.text() =~= seq!['.', 'r', 'a', 'r'],
            Extension::SevenZ => extension.text() =~= seq!['.', '7', 'z'],
            Extension::TarBzTwo => extension.text() =~= seq!['.', 't', 'a', 'r', '.', 'b', 'z', '2'],
            Extension::TarGz => extension.text() =~= seq!['.', 't', 'a', 'r', '.', 'g', 'z'],
            Extension::TarXz => extension.text() =~= seq!['.', 't', 'a', 'r', '.', 'x', 'z'],
            Extension::Tar => extension.text() =~= seq!['.', 't', 'a', 'r'],
            Extension::Tgz => extension.text() =~= seq!['.', 't', 'g', 'z'],
            Extension::Zip => extension.text() =~= seq!['.', 'z', 'i', 'p'],
        },
{
    reveal_strlit(".rar");
    reveal_strlit(".7z");
    reveal_strlit(".tar.bz2");
    reveal_strlit(".tar.gz");
    reveal_strlit(".tar.xz");
    reveal_strlit(".tar");
    reveal_strlit(".tgz");
    reveal_strlit(".zip");
    let text = extension.text();
    let start = name.len() - text.len();
    assert forall|j: int| 0 <= j < text.len() implies name[start + j] == #[trigger] text[j] by {
        assert(name.subrange(start, name.len() as int)[j] == text[j]);
    }
    assert(name[start + 0] == text[0]);
    assert(name[start + (text.len() - 3)] == text[text.len() - 3]);
    assert(name[start + (text.len() - 2)] == text[text.len() - 2]);
    assert(name[start + (text.len() - 1)] == text[text.len() - 1]);
}

/// A file name carries at most one extension, so the order in which the
/// extensions are tried does not matter.
pub proof fn lemma_one_extension(file_name: Seq<char>, first: Extension, second: Extension)
    requires
        first.names(file_name),
        second.names(file_name),
    ensures
        first == second,
{
    lemma_text_tail(first, lowered(file_name));
    lemma_text_tail(second, lowered(file_name));
}

/// A file name selects an extension exactly if it carries that extension.
pub proof fn lemma_detected_is_named(file_name: Seq<char>, extension: Extension)
    ensures
        detected(file_name) == Ok::<Extension, UsageError>(extension) <==> extension.names(
            file_name,
        ),
{
    if extension.names(file_name) {
        let name = lowered(file_name);
        lemma_text_tail(extension, name);
        lemma_lower_keeps_dots(file_name);
        assert(has_dot(name)) by {
            let i = name.len() - extension.text().len();
            assert(0 <= i < name.len() && name[i] == '.');
        }
        match detected(file_name) {
            Ok(other) => {
                lemma_one_extension(file_name, extension, other);
            },
            Err(_) => {},
        }
    }
}

/// A file name is refused as unrecognized exactly if it holds a dot and
/// carries none of the extensions.
pub proof fn lemma_unrecognized(file_name: Seq<char>)
    ensures
        detected(file_name) == Err::<Extension, UsageError>(UsageError::UnrecognizedExtension) <==> has_dot(
            file_name,
        ) && forall|extension: Extension| !extension.names(file_name),
        detected(file_name) == Err::<Extension, UsageError>(UsageError::NoExtension) <==> !has_dot(
            file_name,
        ),
{
    if has_dot(file_name) && detected(file_name) is Err {
        assert forall|extension: Extension| !extension.names(file_name) by {
            lemma_detected_is_named(file_name, extension);
        }
    }
    if has_dot(file_name) && detected(file_name) is Ok {
        let extension = detected(file_name)->Ok_0;
        lemma_detected_is_named(file_name, extension);
    }
}

/// Where the text of an extension can be removed from a file name, the name
/// is the stem followed by that text, and the name selects that extension.
pub proof fn lemma_stem_and_extension(file_name: Seq<char>, extension: Extension)
    requires
        stripped(file_name, extension.text()) is Ok,
    ensures
        file_name == stripped(file_name, extension.text())->Ok_0 + extension.text(),
        detected(file_name) == Ok::<Extension, UsageError>(extension),
{
    let text = extension.text();
    let start = file_name.len() - text.len();
    let stem = file_name.take(start);
    lemma_text_tail(extension, file_name);
    assert(file_name =~= stem + text);
    assert(text =~= lowered(file_name).subrange(start, file_name.len() as int)) by {
        assert forall|j: int| 0 <= j < text.len() implies text[j] == lowered(file_name)[start + j] by {
            assert(file_name.subrange(start, file_name.len() as int)[j] == text[j]);
        }
    }
    lemma_detected_is_named(file_name, extension);
}

/// The extension that a file name selects can be removed from the name in
/// lower case, and from the name itself where it holds no ASCII capital.
pub proof fn lemma_detected_can_be_stripped(file_name: Seq<char>, extension: Extension)
    requires
        detected(file_name) == Ok::<Extension, UsageError>(extension),
    ensures
        stripped(lowered(file_name), extension.text()) is Ok,
        lowered(file_name) == file_name ==> stripped(file_name, extension.text()) is Ok,
{
    lemma_detected_is_named(file_name, extension);
}

} // verus!
