//! How the password of an archive may be supplied, and how a typed one is read.
use vstd::prelude::*;
use crate::error::UsageError;
use crate::extension::FileType;
use crate::text::chars_of;

verus! {

/// Where the password of an archive comes from.
#[derive(Clone, Copy, Debug, PartialEq, Eq, Structural)]
pub enum PasswordSource {
    /// The archive is opened without a password.
    Absent,
    /// The user is asked to type the password.
    Typed,
    /// The password was given with the request.
    Given,
}

/// The rule: a format that is never encrypted takes no password option at
/// all; the others take a given password or a typed one, not both.
pub open spec fn chosen_source(file_type: FileType, given: bool, typed: bool) -> Result<
    PasswordSource,
    UsageError,
> {
    if !given && !typed {
        Ok(PasswordSource::Absent)
    } else if !file_type.encryptable() {
        Err(UsageError::EncryptionNotSupported)
    } else if given && typed {
        Err(UsageError::ConflictingPasswordOptions)
    } else if typed {
        Ok(PasswordSource::Typed)
    } else {
        Ok(PasswordSource::Given)
    }
}

/// Decides where the password comes from. `given` says that a password came
/// with the request, `typed` that the user wants to type one.
pub fn password_source(file_type: FileType, given: bool, typed: bool) -> (r: Result<
    PasswordSource,
    UsageError,
>)
    ensures
        r == chosen_source(file_type, given, typed),
{
    if file_type.supports_password() {
        match (given, typed) {
            (false, false) => Ok(PasswordSource::Absent),
            (false, true) => Ok(PasswordSource::Typed),
            (true, false) => Ok(PasswordSource::Given),
            (true, true) => Err(UsageError::ConflictingPasswordOptions),
        }
    } else {
        match (given, typed) {
            (false, false) => Ok(PasswordSource::Absent),
            _ => Err(UsageError::EncryptionNotSupported),
        }
    }
}

/// Whether a character ends or restarts a line.
pub open spec fn is_line_break(c: char) -> bool {
    c == '\n' || c == '\r'
}

/// Whether a carriage return or a newline stands in a sequence.
pub open spec fn has_line_break(s: Seq<char>) -> bool {
    exists|i: int| 0 <= i < s.len() && is_line_break(#[trigger] s[i])
}

/// A typed line without the newline that ends it and without the carriage
/// return that may stand before that newline.
pub open spec fn line_body(line: Seq<char>) -> Seq<char>
    recommends
        line.len() > 0,
{
    let body = line.drop_last();
    if body.len() > 0 && body.last() == '\r' {
        body.drop_last()
    } else {
        body
    }
}

/// The password that a typed line holds: the line must end with a newline,
/// and what is left of it must hold no line break.
pub open spec fn typed(line: Seq<char>) -> Result<Seq<char>, UsageError> {
    if line.len() == 0 || line.last() != '\n' {
        Err(UsageError::MissingNewline)
    } else if has_line_break(line_body(line)) {
        Err(UsageError::LineBreakInPassword)
    } else {
        Ok(line_body(line))
    }
}

/// A password that was read from a typed line holds no line break, and the
/// line is the password followed by a newline or by a carriage return and a
/// newline.
pub proof fn lemma_typed_line(line: Seq<char>)
    requires
        typed(line) is Ok,
    ensures
        !has_line_break(typed(line)->Ok_0),
        line == typed(line)->Ok_0 + seq!['\n'] || line == typed(line)->Ok_0 + seq!['\r', '\n'],
{
    let password = typed(line)->Ok_0;
    let body = line.drop_last();
    assert(line =~= body + seq!['\n']);
    if body.len() > 0 && body.last() == '\r' {
        assert(body =~= password + seq!['\r']);
        assert(line =~= password + seq!['\r', '\n']);
    }
}

/// Whether a carriage return or a newline stands among the first `end`
/// characters of `s`.
fn line_break_before(s: &[char], end: usize) -> (r: bool)
    requires
        end <= s.len(),
    ensures
        r == has_line_break(s@.take(end as int)),
{
    let mut i: usize = 0;
    while i < end
        invariant
            end <= s.len(),
            i <= end,
            forall|j: int| 0 <= j < i ==> !is_line_break(s@[j]),
        decreases end - i,
    {
        if s[i] == '\n' || s[i] == '\r' {
            assert(is_line_break(s@.take(end as int)[i as int]));
            return true;
        }
        i += 1;
    }
    assert forall|j: int| 0 <= j < s@.take(end as int).len() implies !is_line_break(
        #[trigger] s@.take(end as int)[j],
    ) by {
        assert(s@.take(end as int)[j] == s@[j]);
    }
    false
}

/// Reads the password from the line that the user typed.
pub fn typed_password(line: &str) -> (r: Result<String, UsageError>)
    ensures
        match r {
            Ok(password) => typed(line@) == Ok::<Seq<char>, UsageError>(password@),
            Err(e) => typed(line@) == Err::<Seq<char>, UsageError>(e),
        },
{
    let chars = chars_of(line);
    let n: usize = chars.len();
    if n == 0 || chars[n - 1] != '\n' {
        return Err(UsageError::MissingNewline);
    }
    let kept: usize = if n >= 2 && chars[n - 2] == '\r' {
        n - 2
    } else {
        n - 1
    };
    assert(line_body(line@) =~= line@.take(kept as int));
    if line_break_before(chars.as_slice(), kept) {
        Err(UsageError::LineBreakInPassword)
    } else {
        Ok(line.substring_char(0, kept).to_owned())
    }
}

} // verus!
