//! Handling of errors from the Wacom STU interface.
//!
//! Every native call returns an integer status. A status other than success
//! falls into one of three classes: a misuse of the interface by this library,
//! which is a defect and never reaches the caller; an exception raised by the
//! device or its driver, which the caller can act on; and an operation that
//! the native interface does not implement.
use vstd::prelude::*;
use vstd::string::StringExecFns;
use crate::native::{Status, StatusCodes};

verus! {

/// An exception thrown by the Wacom STU API.
///
/// The variants express all of the error conditions given out by the API in
/// a centralized way.
#[derive(Debug, Clone, Copy, PartialEq, Eq, Hash, Structural)]
pub enum Exception {
    WriteNotSupported,
    SystemError,
    NotConnected,
    DeviceRemoved,
    TimedOut,
    InputOutput,
    Other,
}

impl Exception {
    /// The words that describe this exception.
    pub open spec fn text(&self) -> Seq<char> {
        match self {
            Exception::WriteNotSupported => "write operations are not supported"@,
            Exception::SystemError => "the system reported an error"@,
            Exception::NotConnected => "the target device is not connected"@,
            Exception::DeviceRemoved => "the device has been removed"@,
            Exception::TimedOut => "the operation has timed out"@,
            Exception::InputOutput => "an input/output error has occurred"@,
            Exception::Other => "an unknown error has occurred"@,
        }
    }

    /// The words that describe this exception.
    pub fn description(&self) -> (words: &'static str)
        ensures
            words@ == self.text(),
    {
        match self {
            Exception::WriteNotSupported => "write operations are not supported",
            Exception::SystemError => "the system reported an error",
            Exception::NotConnected => "the target device is not connected",
            Exception::DeviceRemoved => "the device has been removed",
            Exception::TimedOut => "the operation has timed out",
            Exception::InputOutput => "an input/output error has occurred",
            Exception::Other => "an unknown error has occurred",
        }
    }
}

/// An enumeration of the valid types of internal errors.
///
/// This type encodes both errors originating from the library and those
/// originating from the device. Before passing an error on to the user, a
/// function must check which of the two a given value is.
#[derive(Debug, Clone, Copy, PartialEq, Eq, Hash, Structural)]
pub enum InternalErrorCode {
    Unspecified,
    InvalidHandle,
    InvalidParameter,
    InvalidSizeOf,
    Unsupported,
    Exception(Exception),
}

impl InternalErrorCode {
    /// What a named status means: success, or the code of the failure.
    pub open spec fn of_status(status: Status) -> Result<(), InternalErrorCode> {
        match status {
            Status::Success => Ok(()),
            Status::Unspecified => Err(InternalErrorCode::Unspecified),
            Status::InvalidHandle => Err(InternalErrorCode::InvalidHandle),
            Status::InvalidParameter => Err(InternalErrorCode::InvalidParameter),
            Status::InvalidParameterNullPointer => Err(InternalErrorCode::InvalidParameter),
            Status::Unsupported => Err(InternalErrorCode::Unsupported),
            Status::Error => Err(InternalErrorCode::Unspecified),
            Status::ErrorSizeof => Err(InternalErrorCode::InvalidSizeOf),
            Status::ExceptionUnknown => Err(InternalErrorCode::Exception(Exception::Other)),
            Status::ExceptionStd => Err(InternalErrorCode::Exception(Exception::Other)),
            Status::ExceptionSystemError => Err(
                InternalErrorCode::Exception(Exception::SystemError),
            ),
            Status::ExceptionNotConnected => Err(
                InternalErrorCode::Exception(Exception::NotConnected),
            ),
            Status::ExceptionDeviceRemoved => Err(
                InternalErrorCode::Exception(Exception::DeviceRemoved),
            ),
            Status::ExceptionWriteNotSupported => Err(
                InternalErrorCode::Exception(Exception::WriteNotSupported),
            ),
            Status::ExceptionIo => Err(InternalErrorCode::Exception(Exception::InputOutput)),
            Status::ExceptionTimeout => Err(InternalErrorCode::Exception(Exception::TimedOut)),
            Status::ExceptionSet => Err(InternalErrorCode::Exception(Exception::Other)),
            Status::ExceptionReportHandler => Err(InternalErrorCode::Exception(Exception::Other)),
            Status::ExceptionEncryptionHandler => Err(
                InternalErrorCode::Exception(Exception::Other),
            ),
        }
    }

    /// What a native status code means. `None` stands for a code that no
    /// status has: there is nothing to translate it to.
    pub open spec fn translation(codes: StatusCodes, what: i32) -> Option<
        Result<(), InternalErrorCode>,
    > {
        match codes.decode_spec(what) {
            Some(status) => Some(Self::of_status(status)),
            None => None,
        }
    }

    /// Whether this code shows a misuse of the native interface, which is a
    /// defect of the library and not a condition of the device.
    pub open spec fn is_misuse(&self) -> bool {
        match self {
            InternalErrorCode::Unspecified => true,
            InternalErrorCode::InvalidHandle => true,
            InternalErrorCode::InvalidParameter => true,
            InternalErrorCode::InvalidSizeOf => true,
            InternalErrorCode::Unsupported => false,
            InternalErrorCode::Exception(_) => false,
        }
    }

    /// The words that describe this code.
    pub open spec fn text(&self) -> Seq<char> {
        match self {
            InternalErrorCode::Unspecified => "unspecified error"@,
            InternalErrorCode::InvalidHandle => "a handle given to the ffi function is invalid"@,
            InternalErrorCode::InvalidParameter => "a parameter given to the ffi function is invalid"@,
            InternalErrorCode::InvalidSizeOf => "a parameter had the wrong size of value"@,
            InternalErrorCode::Unsupported => "the operation is unsupported"@,
            InternalErrorCode::Exception(exception) => exception.text(),
        }
    }

    /// The words that describe this code.
    pub fn description(&self) -> (words: &'static str)
        ensures
            words@ == self.text(),
    {
        match self {
            InternalErrorCode::Unspecified => "unspecified error",
            InternalErrorCode::InvalidHandle => "a handle given to the ffi function is invalid",
            InternalErrorCode::InvalidParameter => "a parameter given to the ffi function is invalid",
            InternalErrorCode::InvalidSizeOf => "a parameter had the wrong size of value",
            InternalErrorCode::Unsupported => "the operation is unsupported",
            InternalErrorCode::Exception(exception) => exception.description(),
        }
    }

    /// Generate our equivalent error type to a named status.
    pub fn from_status(status: Status) -> (result: Result<(), InternalErrorCode>)
        ensures
            result == Self::of_status(status),
    {
        match status {
            Status::Success => Ok(()),
            Status::Unspecified => Err(InternalErrorCode::Unspecified),
            Status::InvalidHandle => Err(InternalErrorCode::InvalidHandle),
            Status::InvalidParameter => Err(InternalErrorCode::InvalidParameter),
            Status::InvalidParameterNullPointer => Err(InternalErrorCode::InvalidParameter),
            Status::Unsupported => Err(InternalErrorCode::Unsupported),
            Status::Error => Err(InternalErrorCode::Unspecified),
            Status::ErrorSizeof => Err(InternalErrorCode::InvalidSizeOf),
            Status::ExceptionUnknown => Err(InternalErrorCode::Exception(Exception::Other)),
            Status::ExceptionStd => Err(InternalErrorCode::Exception(Exception::Other)),
            Status::ExceptionSystemError => Err(
                InternalErrorCode::Exception(Exception::SystemError),
            ),
            Status::ExceptionNotConnected => Err(
                InternalErrorCode::Exception(Exception::NotConnected),
            ),
            Status::ExceptionDeviceRemoved => Err(
                InternalErrorCode::Exception(Exception::DeviceRemoved),
            ),
            Status::ExceptionWriteNotSupported => Err(
                InternalErrorCode::Exception(Exception::WriteNotSupported),
            ),
            Status::ExceptionIo => Err(InternalErrorCode::Exception(Exception::InputOutput)),
            Status::ExceptionTimeout => Err(InternalErrorCode::Exception(Exception::TimedOut)),
            Status::ExceptionSet => Err(InternalErrorCode::Exception(Exception::Other)),
            Status::ExceptionReportHandler => Err(InternalErrorCode::Exception(Exception::Other)),
            Status::ExceptionEncryptionHandler => Err(
                InternalErrorCode::Exception(Exception::Other),
            ),
        }
    }

    /// Translates a native status code, or finds that it cannot be.
    ///
    /// Returns `None` exactly for the codes that no status has. Such a code
    /// is never taken for success: the caller has to give up.
    pub fn try_from_wacom_stu(codes: &StatusCodes, what: i32) -> (result: Option<
        Result<(), InternalErrorCode>,
    >)
        ensures
            result == Self::translation(*codes, what),
            result is Some <==> codes.defines(what),
    {
        match codes.decode(what) {
            Some(status) => Some(Self::from_status(status)),
            None => None,
        }
    }

    /// Generate our wrapper equivalent error type to the Wacom STU error.
    ///
    /// The code has to be one that some status has.
    pub fn from_wacom_stu(codes: &StatusCodes, what: i32) -> (result: Result<
        (),
        InternalErrorCode,
    >)
        requires
            codes.defines(what),
        ensures
            Some(result) == Self::translation(*codes, what),
            result is Ok <==> codes.decode_spec(what) == Some(Status::Success),
    {
        match codes.decode(what) {
            Some(status) => Self::from_status(status),
            None => unreached(),
        }
    }

    /// Whether this code indicates a misbehavior in this crate.
    pub fn internal_misbehavior(&self) -> (misuse: bool)
        ensures
            misuse == self.is_misuse(),
    {
        match self {
            InternalErrorCode::Exception(_) => false,
            InternalErrorCode::Unsupported => false,
            _ => true,
        }
    }
}

/// What the native interface hands back when asked for the exception that
/// a failed call left behind.
#[derive(Debug, Clone, PartialEq, Eq)]
pub struct ExceptionReport {
    /// The status of the query itself.
    pub status: i32,
    /// The string data describing the exception.
    pub message: Vec<u8>,
    /// The integer code, as given by the Wacom STU API.
    pub code: i32,
}

/// Error type corresponding exactly to what the native interface reports.
///
/// This type is not meant for the users of a tablet. It encodes both errors
/// originating from the library and those originating from the device.
/// Before passing an error on to the user, a function must check which of the
/// two a given instance is, with [`internal_misbehavior()`], and hand on only
/// the second, with [`unwrap_to_general()`].
///
/// [`internal_misbehavior()`]: InternalError::internal_misbehavior
/// [`unwrap_to_general()`]: InternalError::unwrap_to_general
#[derive(Debug, Clone, PartialEq, Eq)]
pub struct InternalError {
    /// The code indicating what led to this error.
    code: InternalErrorCode,
    /// The string data describing this error.
    data: Vec<u8>,
    /// The integer code, as given by the Wacom STU API.
    stu_code: i32,
}

/// An error in how a tablet was used.
#[derive(Debug, Clone, Copy, PartialEq, Eq, Hash, Structural)]
pub enum ClientError {
    /// The connected device does not support the report that the operation
    /// is keyed to.
    UnsupportedReportId { report_id: u32 },
}

/// An error originating from the Wacom STU API.
#[derive(Debug, Clone, PartialEq, Eq)]
pub enum Error {
    /// The device or its driver raised an exception.
    Exception {
        /// The exception that originated this error.
        exception: Exception,
        /// The string data describing this error.
        data: Vec<u8>,
        /// The integer code, as given by the Wacom STU API.
        stu_code: i32,
    },
    /// The native interface does not implement the operation.
    Unsupported,
    /// The operation is not one that the connected device admits.
    ClientError(ClientError),
}

impl InternalError {
    /// The code indicating what led to this error.
    pub closed spec fn spec_code(&self) -> InternalErrorCode {
        self.code
    }

    /// The string data describing this error.
    pub closed spec fn spec_data(&self) -> Vec<u8> {
        self.data
    }

    /// The integer code, as given by the Wacom STU API.
    pub closed spec fn spec_stu_code(&self) -> i32 {
        self.stu_code
    }

    /// The error that `unwrap_to_general` hands to the user.
    pub open spec fn general(&self) -> Error {
        match self.spec_code() {
            InternalErrorCode::Exception(exception) => Error::Exception {
                exception,
                data: self.spec_data(),
                stu_code: self.spec_stu_code(),
            },
            _ => Error::Unsupported,
        }
    }

    /// The code indicating what led to this error.
    #[verifier::when_used_as_spec(spec_code)]
    pub fn code(&self) -> (code: InternalErrorCode)
        ensures
            code == self.spec_code(),
    {
        self.code
    }

    /// The string data describing this error.
    pub fn data(&self) -> (data: &Vec<u8>)
        ensures
            *data == self.spec_data(),
    {
        &self.data
    }

    /// The integer code, as given by the Wacom STU API.
    #[verifier::when_used_as_spec(spec_stu_code)]
    pub fn stu_code(&self) -> (stu_code: i32)
        ensures
            stu_code == self.spec_stu_code(),
    {
        self.stu_code
    }

    /// Whether this error indicates a misbehavior in this crate.
    pub fn internal_misbehavior(&self) -> (misuse: bool)
        ensures
            misuse == self.spec_code().is_misuse(),
    {
        self.code.internal_misbehavior()
    }

    /// Unwraps this error to one for the user.
    ///
    /// An exception keeps its string data and its code. An error that
    /// indicates a misbehavior in this crate has no such form: it must not be
    /// handed in.
    pub fn unwrap_to_general(self) -> (error: Error)
        requires
            !self.spec_code().is_misuse(),
        ensures
            error == self.general(),
            error is Exception <==> self.spec_code() is Exception,
            error is Unsupported <==> self.spec_code() is Unsupported,
    {
        match self.code {
            InternalErrorCode::Exception(exception) => Error::Exception {
                exception,
                data: self.data,
                stu_code: self.stu_code,
            },
            _ => Error::Unsupported,
        }
    }

    /// Creates the error for a failed native call.
    ///
    /// `code` is what the status of the failed call was translated to, and
    /// `report` is what the native interface handed back when it was then
    /// asked for the exception. That query must have succeeded.
    pub fn from_wacom_stu(codes: &StatusCodes, code: InternalErrorCode, report: ExceptionReport) -> (error:
        InternalError)
        requires
            report.status == codes.success,
        ensures
            error.spec_code() == code,
            error.spec_data() == report.message,
            error.spec_stu_code() == report.code,
    {
        InternalError { code, data: report.message, stu_code: report.code }
    }
}

/// The text that `bytes` hold when read as UTF-8, with every malformed part
/// replaced by the replacement character.
pub uninterp spec fn utf8_lossy(bytes: Seq<u8>) -> Seq<char>;

/// Reads bytes as UTF-8 with `String::from_utf8_lossy` of the standard
/// library. The contract only names the text that comes out: it is the same
/// for the same bytes.
#[verifier::external_body]
fn decode_lossy(bytes: &Vec<u8>) -> (text: String)
    ensures
        text@ == utf8_lossy(bytes@),
{
    String::from_utf8_lossy(bytes).into_owned()
}

/// The number of bytes in front of the first zero byte of `data`, or the
/// length of `data` where it holds none.
pub open spec fn text_length(data: Seq<u8>) -> nat
    decreases data.len(),
{
    if data.len() == 0 || data[0] == 0 {
        0
    } else {
        1 + text_length(data.drop_first())
    }
}

/// The bytes of the string that `data` holds: those in front of the first
/// zero byte.
pub open spec fn c_string(data: Seq<u8>) -> Seq<u8> {
    data.take(text_length(data) as int)
}

/// A place with no zero byte in front of it, which holds one or is the end,
/// is where the string ends.
proof fn text_length_is(data: Seq<u8>, end: nat)
    requires
        end <= data.len(),
        forall|i: int| 0 <= i < end ==> data[i] != 0,
        end < data.len() ==> data[end as int] == 0,
    ensures
        text_length(data) == end,
    decreases end,
{
    if end > 0 {
        let rest = data.drop_first();
        assert forall|i: int| 0 <= i < end - 1 implies rest[i] != 0 by {
            assert(rest[i] == data[i + 1]);
        }
        text_length_is(rest, (end - 1) as nat);
    }
}

/// The bytes of the string that `data` holds: those in front of the first
/// zero byte, or all of them where there is none.
pub fn c_string_bytes(data: &Vec<u8>) -> (text: Vec<u8>)
    ensures
        text@ == c_string(data@),
{
    let mut text: Vec<u8> = Vec::new();
    let mut i: usize = 0;
    while i < data.len() && data[i] != 0
        invariant
            i <= data.len(),
            text@ == data@.take(i as int),
            forall|j: int| 0 <= j < i ==> data@[j] != 0,
        decreases data.len() - i,
    {
        text.push(data[i]);
        i += 1;
        assert(text@ =~= data@.take(i as int));
    }
    proof {
        text_length_is(data@, i as nat);
    }
    text
}

/// The digit that stands for a number below ten.
pub open spec fn digit_text(digit: nat) -> Seq<char> {
    if digit == 0 {
        "0"@
    } else if digit == 1 {
        "1"@
    } else if digit == 2 {
        "2"@
    } else if digit == 3 {
        "3"@
    } else if digit == 4 {
        "4"@
    } else if digit == 5 {
        "5"@
    } else if digit == 6 {
        "6"@
    } else if digit == 7 {
        "7"@
    } else if digit == 8 {
        "8"@
    } else {
        "9"@
    }
}

/// A number written in decimal digits, without leading zeros.
pub open spec fn decimal(number: nat) -> Seq<char>
    decreases number,
{
    if number < 10 {
        digit_text(number)
    } else {
        decimal(number / 10) + digit_text(number % 10)
    }
}

fn digit_str(digit: u32) -> (text: &'static str)
    requires
        digit < 10,
    ensures
        text@ == digit_text(digit as nat),
{
    if digit == 0 {
        "0"
    } else if digit == 1 {
        "1"
    } else if digit == 2 {
        "2"
    } else if digit == 3 {
        "3"
    } else if digit == 4 {
        "4"
    } else if digit == 5 {
        "5"
    } else if digit == 6 {
        "6"
    } else if digit == 7 {
        "7"
    } else if digit == 8 {
        "8"
    } else {
        "9"
    }
}

/// Writes `number` behind `text`, in decimal digits.
pub fn append_decimal(text: &mut String, number: u32)
    ensures
        final(text)@ == old(text)@ + decimal(number as nat),
    decreases number,
{
    if number >= 10 {
        append_decimal(text, number / 10);
    }
    text.append(digit_str(number % 10));
    assert(final(text)@ =~= old(text)@ + decimal(number as nat));
}

impl ClientError {
    /// The words that describe this error.
    pub open spec fn text(&self) -> Seq<char> {
        match self {
            ClientError::UnsupportedReportId { report_id } => {
                "the device does not support the report id "@ + decimal(*report_id as nat)
            },
        }
    }

    /// The words that describe this error.
    pub fn to_string(&self) -> (words: String)
        ensures
            words@ == self.text(),
    {
        match self {
            ClientError::UnsupportedReportId { report_id } => {
                let mut words = String::from_str("the device does not support the report id ");
                append_decimal(&mut words, *report_id);
                words
            },
        }
    }
}

impl Error {
    /// The words for an exception whose string data reads `message`.
    pub open spec fn exception_text(exception: Exception, message: Seq<char>) -> Seq<char> {
        exception.text() + ": "@ + message
    }

    /// The words that describe this error. For an exception they end in the
    /// string that its data hold, read as UTF-8.
    pub open spec fn text(&self) -> Seq<char> {
        match self {
            Error::Exception { exception, data, stu_code } => Self::exception_text(
                *exception,
                utf8_lossy(c_string(data@)),
            ),
            Error::Unsupported => InternalErrorCode::Unsupported.text(),
            Error::ClientError(error) => error.text(),
        }
    }

    /// The words for an exception whose string data reads `message`: what
    /// the exception is, a colon, and the message.
    pub fn exception_message(exception: Exception, message: &str) -> (words: String)
        ensures
            words@ == Self::exception_text(exception, message@),
    {
        let mut words = String::from_str(exception.description());
        words.append(": ");
        words.append(message);
        words
    }

    /// The words that describe this error.
    pub fn to_string(&self) -> (words: String)
        ensures
            words@ == self.text(),
    {
        match self {
            Error::Exception { exception, data, stu_code } => {
                let message = decode_lossy(&c_string_bytes(data));
                Self::exception_message(*exception, message.as_str())
            },
            Error::Unsupported => String::from_str(InternalErrorCode::Unsupported.description()),
            Error::ClientError(error) => error.to_string(),
        }
    }
}

/// A status code that no status has is never translated: not to success, and
/// not to any failure either.
pub proof fn undefined_status_has_no_translation(codes: StatusCodes, what: i32)
    requires
        !codes.defines(what),
    ensures
        InternalErrorCode::translation(codes, what) is None,
        InternalErrorCode::translation(codes, what) != Some(Ok::<(), InternalErrorCode>(())),
{
    codes.decode_is_sound(what);
}

/// Only the code of success is translated to success.
pub proof fn only_success_translates_to_success(codes: StatusCodes, what: i32)
    ensures
        InternalErrorCode::translation(codes, what) == Some(Ok::<(), InternalErrorCode>(()))
            <==> what == codes.success,
{
}

/// Every code that some status has is translated: to success, to a misuse,
/// to an exception, or to the unsupported operation.
pub proof fn defined_status_has_translation(codes: StatusCodes, what: i32)
    requires
        codes.defines(what),
    ensures
        InternalErrorCode::translation(codes, what) matches Some(result) && match result {
            Ok(()) => what == codes.success,
            Err(code) => code.is_misuse() || code is Exception || code is Unsupported,
        },
{
    codes.decode_is_sound(what);
}

} // verus!
