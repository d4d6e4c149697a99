//! Reading what a foreign decoder hands back.
//!
//! A foreign decoder takes buffers as an address and a signed 32-bit length and
//! answers with a status code, a data buffer and an error message, both of
//! them again an address and a length. The caller makes the call and copies
//! each answered buffer out of foreign memory; this module checks the lengths
//! on the way in and reads the answer.
use vstd::prelude::*;
use vstd::string::{StrSliceExecFns, StringExecFns, StringSliceAdditionalSpecFns};
use vstd::utf8::{decode_utf8, encode_utf8, valid_utf8};
use crate::text::{decimal, decimal_string};

verus! {

/// The error of `core::str::from_utf8`, carried through unread.
#[verifier::external_type_specification]
#[verifier::external_body]
pub struct ExUtf8Error(core::str::Utf8Error);

/// `core::str::from_utf8` succeeds exactly on the byte sequences that are
/// well-formed UTF-8, and the string it gives then has those bytes.
pub assume_specification[ core::str::from_utf8 ](v: &[u8]) -> (r: Result<&str, core::str::Utf8Error>)
    ensures
        r is Ok <==> valid_utf8(v@),
        r matches Ok(s) ==> s.spec_bytes() == v@,
;

/// The two status codes that the foreign side defines.
#[derive(Clone, Copy, Debug, PartialEq, Eq, Structural)]
pub struct StatusCodes {
    /// The call succeeded and the data buffer holds the result.
    pub success: u32,
    /// The call failed and the error message says why.
    pub failure: u32,
}

/// Why a foreign call gave no data.
#[derive(Debug, PartialEq, Eq)]
pub enum ForeignError {
    /// A length does not fit the integer type of the other side.
    LengthOutOfRange,
    /// The foreign side reported a failure, but its message is not UTF-8.
    InvalidUtf8(core::str::Utf8Error),
    /// The foreign side reported a failure.
    Failed { status_code: u32, message: String },
    /// The status code is neither of the two that the foreign side defines.
    InvalidStatusCode { status_code: u32 },
}

/// A `ForeignError` with its message as a sequence of characters.
pub ghost enum Failure {
    LengthOutOfRange,
    InvalidUtf8,
    Failed { status_code: u32, message: Seq<char> },
    InvalidStatusCode { status_code: u32 },
}

impl View for ForeignError {
    type V = Failure;

    open spec fn view(&self) -> Failure {
        match self {
            ForeignError::LengthOutOfRange => Failure::LengthOutOfRange,
            ForeignError::InvalidUtf8(_) => Failure::InvalidUtf8,
            ForeignError::Failed { status_code, message } => Failure::Failed {
                status_code: *status_code,
                message: message@,
            },
            ForeignError::InvalidStatusCode { status_code } => Failure::InvalidStatusCode {
                status_code: *status_code,
            },
        }
    }
}

impl Failure {
    /// The sentence for each failure whose wording is this library's own.
    /// For a message that is not UTF-8 the wording is that of the standard
    /// library, and nothing is said of it here.
    pub open spec fn text(self) -> Seq<char>
        recommends
            self != Failure::InvalidUtf8,
    {
        match self {
            Failure::LengthOutOfRange => "out of range integral type conversion attempted"@,
            Failure::InvalidUtf8 => Seq::empty(),
            Failure::Failed { status_code, message } => "Foreign function failed with status code "@
                + decimal(status_code as nat) + ": \""@ + message + "\""@,
            Failure::InvalidStatusCode { status_code } => "Invalid foreign function status code "@
                + decimal(status_code as nat) + " encountered"@,
        }
    }
}

/// The words of the standard library for a `Utf8Error`, by its `Display`.
/// Nothing is claimed of them.
#[verifier::external_body]
fn utf8_error_text(error: &core::str::Utf8Error) -> String {
    format!("{}", error)
}

impl ForeignError {
    /// Gives the sentence for this error.
    pub fn message(&self) -> (r: String)
        ensures
            self@ != Failure::InvalidUtf8 ==> r@ == self@.text(),
    {
        match self {
            ForeignError::LengthOutOfRange => String::from_str(
                "out of range integral type conversion attempted",
            ),
            ForeignError::InvalidUtf8(error) => utf8_error_text(error),
            ForeignError::Failed { status_code, message } => {
                let mut r = String::from_str("Foreign function failed with status code ");
                r.append(decimal_string(*status_code).as_str());
                r.append(": \"");
                r.append(message.as_str());
                r.append("\"");
                r
            },
            ForeignError::InvalidStatusCode { status_code } => {
                let mut r = String::from_str("Invalid foreign function status code ");
                r.append(decimal_string(*status_code).as_str());
                r.append(" encountered");
                r
            },
        }
    }
}

/// The length of a buffer as the foreign side takes it: a signed 32-bit
/// number.
pub open spec fn foreign_length(len: nat) -> Result<i32, Failure> {
    if len <= i32::MAX {
        Ok(len as i32)
    } else {
        Err(Failure::LengthOutOfRange)
    }
}

/// Checks that the length of a buffer can be handed to the foreign side,
/// and gives it in the type of that side.
pub fn buffer_length(buffer: &[u8]) -> (r: Result<i32, ForeignError>)
    ensures
        match r {
            Ok(length) => foreign_length(buffer@.len()) == Ok::<i32, Failure>(length),
            Err(e) => foreign_length(buffer@.len()) == Err::<i32, Failure>(e@),
        },
{
    match i32::try_from(buffer.len()) {
        Ok(length) => Ok(length),
        Err(_) => Err(ForeignError::LengthOutOfRange),
    }
}

/// What is handed to the foreign side to convert a rar archive, besides
/// the archive itself: its length, and the password with its length.
#[derive(Debug, PartialEq, Eq)]
pub struct RarRequest {
    pub input_length: i32,
    pub password: Vec<u8>,
    pub password_length: i32,
}

/// The password as the foreign side takes it: its bytes in UTF-8, and no
/// bytes where no password was given.
pub open spec fn password_bytes(password: Option<String>) -> Seq<u8> {
    match password {
        Some(text) => encode_utf8(text@),
        None => Seq::empty(),
    }
}

/// Prepares the conversion of a rar archive: the length of the archive is
/// checked first, then that of the password.
pub fn rar_request(input: &[u8], password: Option<String>) -> (r: Result<RarRequest, ForeignError>)
    ensures
        match r {
            Ok(request) => {
                &&& foreign_length(input@.len()) == Ok::<i32, Failure>(request.input_length)
                &&& request.password@ == password_bytes(password)
                &&& foreign_length(request.password@.len()) == Ok::<i32, Failure>(
                    request.password_length,
                )
            },
            Err(e) => {
                &&& e@ == Failure::LengthOutOfRange
                &&& foreign_length(input@.len()) is Err || foreign_length(
                    password_bytes(password).len(),
                ) is Err
            },
        },
{
    let input_length = match buffer_length(input) {
        Ok(length) => length,
        Err(e) => {
            return Err(e);
        },
    };
    let password_to_use: Vec<u8> = match &password {
        Some(text) => text.as_str().as_bytes_vec(),
        None => Vec::new(),
    };
    let password_length = match buffer_length(password_to_use.as_slice()) {
        Ok(length) => length,
        Err(e) => {
            return Err(e);
        },
    };
    Ok(RarRequest { input_length, password: password_to_use, password_length })
}

/// A buffer that the foreign side answered with: the length that it declared
/// and a copy of the bytes at its address. Where the declared length is
/// negative nothing can be read, and the bytes mean nothing.
pub struct ForeignAllocation {
    length: i32,
    bytes: Box<[u8]>,
}

impl ForeignAllocation {
    #[verifier::type_invariant]
    spec fn consistent(&self) -> bool {
        self.length >= 0 ==> self.bytes@.len() == self.length
    }

    /// The length that the foreign side declared.
    pub closed spec fn length(&self) -> int {
        self.length as int
    }

    /// The bytes that were copied.
    pub closed spec fn bytes(&self) -> Seq<u8> {
        self.bytes@
    }

    /// Holds a declared length and the copied bytes together. Of a buffer
    /// with a declared length that is not negative, exactly that many bytes
    /// are copied.
    pub fn new(length: i32, bytes: Box<[u8]>) -> (r: ForeignAllocation)
        requires
            length >= 0 ==> bytes@.len() == length,
        ensures
            r.length() == length,
            r.bytes() == bytes@,
    {
        ForeignAllocation { length, bytes }
    }
}

/// The status code and the error message of a foreign call.
pub struct ForeignCallResult {
    pub error_message: ForeignAllocation,
    pub status_code: u8,
}

/// The answer to the conversion of a rar archive into a tar archive.
pub struct SafeConvertRarToTarWrapperResult {
    pub foreign_call_result: ForeignCallResult,
    pub data: ForeignAllocation,
}

/// The answer to the decompression of bzip2 data.
pub struct SafeDecompressBzipTwoResult {
    pub foreign_call_result: ForeignCallResult,
    pub data: ForeignAllocation,
}

/// The answer to the decompression of zstd data.
pub struct SafeDecompressZstdResult {
    pub foreign_call_result: ForeignCallResult,
    pub data: ForeignAllocation,
}

/// How many bytes stand at the address of an answered buffer: the declared
/// length, unless it is negative.
pub open spec fn readable(length: i32) -> Result<usize, Failure> {
    if length < 0 {
        Err(Failure::LengthOutOfRange)
    } else {
        Ok(length as usize)
    }
}

/// Says how many bytes may be read at the address of an answered buffer.
/// To be asked before anything is read there.
pub fn readable_length(length: i32) -> (r: Result<usize, ForeignError>)
    ensures
        match r {
            Ok(n) => readable(length) == Ok::<usize, Failure>(n) && length >= 0 && n == length,
            Err(e) => readable(length) == Err::<usize, Failure>(e@) && length < 0,
        },
{
    match usize::try_from(length) {
        Ok(n) => Ok(n),
        Err(_) => Err(ForeignError::LengthOutOfRange),
    }
}

/// The bytes of an answered buffer: all of them where the declared length is
/// not negative, none otherwise.
pub open spec fn boxed(allocation: ForeignAllocation) -> Result<Seq<u8>, Failure> {
    if allocation.length() < 0 {
        Err(Failure::LengthOutOfRange)
    } else {
        Ok(allocation.bytes())
    }
}

/// Takes the bytes out of an answered buffer.
pub fn raw_to_box(foreign_allocation: ForeignAllocation) -> (r: Result<Box<[u8]>, ForeignError>)
    ensures
        match r {
            Ok(bytes) => boxed(foreign_allocation) == Ok::<Seq<u8>, Failure>(bytes@)
                && bytes@.len() == foreign_allocation.length(),
            Err(e) => boxed(foreign_allocation) == Err::<Seq<u8>, Failure>(e@),
        },
{
    proof {
        use_type_invariant(&foreign_allocation);
    }
    match readable_length(foreign_allocation.length) {
        Ok(_) => Ok(foreign_allocation.bytes),
        Err(e) => Err(e),
    }
}

/// What an answer means. Both buffers are taken before the status code is
/// looked at, the data first; a status code that equals both codes counts as
/// success.
pub open spec fn outcome(
    data: ForeignAllocation,
    foreign_call_result: ForeignCallResult,
    codes: StatusCodes,
) -> Result<Seq<u8>, Failure> {
    let status_code = foreign_call_result.status_code as u32;
    let message = foreign_call_result.error_message;
    if data.length() < 0 || message.length() < 0 {
        Err(Failure::LengthOutOfRange)
    } else if status_code == codes.success {
        Ok(data.bytes())
    } else if status_code != codes.failure {
        Err(Failure::InvalidStatusCode { status_code })
    } else if valid_utf8(message.bytes()) {
        Err(Failure::Failed { status_code, message: decode_utf8(message.bytes()) })
    } else {
        Err(Failure::InvalidUtf8)
    }
}

fn read_answer(data: ForeignAllocation, foreign_call_result: ForeignCallResult, codes: StatusCodes) -> (r:
    Result<Box<[u8]>, ForeignError>)
    ensures
        match r {
            Ok(bytes) => outcome(data, foreign_call_result, codes) == Ok::<Seq<u8>, Failure>(bytes@)
                && bytes@.len() == data.length(),
            Err(e) => outcome(data, foreign_call_result, codes) == Err::<Seq<u8>, Failure>(e@),
        },
{
    broadcast use vstd::utf8::encode_utf8_decode_utf8;

    let data_box = match raw_to_box(data) {
        Ok(bytes) => bytes,
        Err(e) => {
            return Err(e);
        },
    };
    let error_message_box = match raw_to_box(foreign_call_result.error_message) {
        Ok(bytes) => bytes,
        Err(e) => {
            return Err(e);
        },
    };
    let status_code = u32::from(foreign_call_result.status_code);
    if status_code == codes.success {
        Ok(data_box)
    } else if status_code == codes.failure {
        match core::str::from_utf8(&error_message_box) {
            Ok(message) => Err(ForeignError::Failed { status_code, message: message.to_owned() }),
            Err(e) => Err(ForeignError::InvalidUtf8(e)),
        }
    } else {
        Err(ForeignError::InvalidStatusCode { status_code })
    }
}

/// Reads the answer to the conversion of a rar archive: the bytes of the tar
/// archive, or why there are none.
pub fn convert_rar_to_tar(answer: SafeConvertRarToTarWrapperResult, codes: StatusCodes) -> (r: Result<
    Box<[u8]>,
    ForeignError,
>)
    ensures
        match r {
            Ok(bytes) => outcome(answer.data, answer.foreign_call_result, codes) == Ok::<
                Seq<u8>,
                Failure,
            >(bytes@) && bytes@.len() == answer.data.length(),
            Err(e) => outcome(answer.data, answer.foreign_call_result, codes) == Err::<
                Seq<u8>,
                Failure,
            >(e@),
        },
{
    let SafeConvertRarToTarWrapperResult { data, foreign_call_result } = answer;
    read_answer(data, foreign_call_result, codes)
}

/// Reads the answer to the decompression of bzip2 data: the decompressed
/// bytes, or why there are none.
pub fn decompress_bzip_two(answer: SafeDecompressBzipTwoResult, codes: StatusCodes) -> (r: Result<
    Box<[u8]>,
    ForeignError,
>)
    ensures
        match r {
            Ok(bytes) => outcome(answer.data, answer.foreign_call_result, codes) == Ok::<
                Seq<u8>,
                Failure,
            >(bytes@) && bytes@.len() == answer.data.length(),
            Err(e) => outcome(answer.data, answer.foreign_call_result, codes) == Err::<
                Seq<u8>,
                Failure,
            >(e@),
        },
{
    let SafeDecompressBzipTwoResult { data, foreign_call_result } = answer;
    read_answer(data, foreign_call_result, codes)
}

/// Reads the answer to the decompression of zstd data: the decompressed
/// bytes, or why there are none.
pub fn decompress_zstd(answer: SafeDecompressZstdResult, codes: StatusCodes) -> (r: Result<
    Box<[u8]>,
    ForeignError,
>)
    ensures
        match r {
            Ok(bytes) => outcome(answer.data, answer.foreign_call_result, codes) == Ok::<
                Seq<u8>,
                Failure,
            >(bytes@) && bytes@.len() == answer.data.length(),
            Err(e) => outcome(answer.data, answer.foreign_call_result, codes) == Err::<
                Seq<u8>,
                Failure,
            >(e@),
        },
{
    let SafeDecompressZstdResult { data, foreign_call_result } = answer;
    read_answer(data, foreign_call_result, codes)
}

} // verus!
