//! Error type of the library.

use vstd::prelude::*;
use crate::ptp::{OperationCode, ResponseCode};
use nusb::Error as UsbError;
use std::io::Error as IoError;
use crate::text::{chars_of, decimal, push_decimal, push_str, string_from_chars};

verus! {

/// `std::io::Error`, carried by [`Error::Io`]; its contents are not inspected here.
#[verifier::external_type_specification]
#[verifier::external_body]
pub struct ExIoError(IoError);

/// `nusb::Error`, carried by [`Error::Usb`]; its contents are not inspected here.
#[verifier::external_type_specification]
#[verifier::external_body]
pub struct ExUsbError(UsbError);

/// The main error type for mtp-rs operations.
#[derive(Debug)]
pub enum Error {
    /// USB communication error
    Usb(UsbError),
    /// Protocol-level error from device
    Protocol {
        /// The response code the device answered with.
        code: ResponseCode,
        /// The operation that was refused.
        operation: OperationCode,
    },
    /// Invalid data received from device
    InvalidData {
        /// What was wrong with the data.
        message: String,
    },
    /// I/O error
    Io(IoError),
    /// Operation timed out
    Timeout,
    /// Device was disconnected
    Disconnected,
    /// Session not open
    SessionNotOpen,
    /// No device found
    NoDevice,
    /// Operation cancelled
    Cancelled,
}

/// Transient errors: the device reported `DeviceBusy`, or the operation timed out.
pub open spec fn error_is_retryable(e: Error) -> bool {
    match e {
        Error::Protocol { code: ResponseCode::DeviceBusy, .. } => true,
        Error::Timeout => true,
        _ => false,
    }
}

/// Whether an error is invalid data with exactly this message.
pub open spec fn is_invalid_data_with(e: Error, text: Seq<char>) -> bool {
    e matches Error::InvalidData { message } && message@ == text
}

/// An invalid data error with this message.
pub(crate) fn data_error(text: &str) -> (e: Error)
    ensures
        is_invalid_data_with(e, text@),
{
    Error::InvalidData { message: string_from_chars(chars_of(text)) }
}

/// An invalid data error whose message is these characters.
pub(crate) fn data_error_chars(text: Vec<char>) -> (e: Error)
    ensures
        is_invalid_data_with(e, text@),
{
    Error::InvalidData { message: string_from_chars(text) }
}

/// An invalid data error whose message is `text` followed by `n` in decimal.
pub(crate) fn data_error_count(text: &str, n: u64) -> (e: Error)
    ensures
        is_invalid_data_with(e, text@ + decimal(n as nat)),
{
    let mut msg = chars_of(text);
    push_decimal(&mut msg, n);
    data_error_chars(msg)
}

/// An invalid data error whose message is `first`, `a` in decimal, `second`
/// and `b` in decimal.
pub(crate) fn data_error_counts(first: &str, a: u64, second: &str, b: u64) -> (e: Error)
    ensures
        is_invalid_data_with(e, first@ + decimal(a as nat) + second@ + decimal(b as nat)),
{
    let mut msg = chars_of(first);
    push_decimal(&mut msg, a);
    push_str(&mut msg, second);
    push_decimal(&mut msg, b);
    data_error_chars(msg)
}

/// An invalid data error whose message is `first`, `n` in decimal, then
/// `last`.
pub(crate) fn data_error_around(first: &str, n: u64, last: &str) -> (e: Error)
    ensures
        is_invalid_data_with(e, first@ + decimal(n as nat) + last@),
{
    let mut msg = chars_of(first);
    push_decimal(&mut msg, n);
    push_str(&mut msg, last);
    data_error_chars(msg)
}

impl Error {
    /// Create an invalid data error with a message.
    pub fn invalid_data<M: Into<String>>(message: M) -> (e: Self)
        ensures
            e is InvalidData,
            <M as vstd::std_specs::convert::IntoSpec<String>>::obeys_into_spec() ==> e->message
                == <M as vstd::std_specs::convert::IntoSpec<String>>::into_spec(message),
    {
        Error::InvalidData { message: message.into() }
    }

    /// Check if this is a retryable error.
    ///
    /// Retryable errors are transient and the operation may succeed if retried:
    /// - `DeviceBusy`: Device is temporarily busy
    /// - `Timeout`: Operation timed out but device may still be responsive
    pub fn is_retryable(&self) -> (r: bool)
        ensures
            r == error_is_retryable(*self),
    {
        match self {
            Error::Protocol { code: ResponseCode::DeviceBusy, .. } => true,
            Error::Timeout => true,
            _ => false,
        }
    }

    /// Get the response code if this is a protocol error.
    pub fn response_code(&self) -> (r: Option<ResponseCode>)
        ensures
            r == (match *self {
                Error::Protocol { code, .. } => Some(code),
                _ => None,
            }),
    {
        match self {
            Error::Protocol { code, .. } => Some(*code),
            _ => None,
        }
    }
}

} // verus!
