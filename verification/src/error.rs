//! The error taxonomy of the session layer and the classification of native
//! failures.
//!
//! A native call reports failure through its result value only; the reason
//! is held in a side channel, the layer's last-error code, which reflects
//! the most recent failure alone.  A failed call therefore first yields a
//! [`Failure`], which names the call, and becomes a [`HikError`] once the
//! code has been fetched.

use vstd::prelude::*;

verus! {

/// The native calls whose failure is explained by the last-error code.
#[derive(Clone, Copy, Debug, PartialEq, Eq)]
pub enum Operation {
    Login,
    Logout,
    ConfigQuery,
    Capture,
    FileQuery,
    PlaybackControl,
    ProgressQuery,
    StopTransfer,
}

/// Every way in which an operation of this library can fail.
#[allow(inconsistent_fields)]
#[derive(Clone, Copy, Debug, PartialEq, Eq)]
pub enum HikError {
    /// The operation needs a session and none is open.
    NoSession,
    /// Progress was asked of a transfer that is not running.
    NotStarted,
    /// A text argument holds a zero byte and cannot be handed to the device.
    InvalidString,
    /// The native layer could not be initialised; `code` is what it returned.
    InitFailed { code: i32 },
    /// The device refused the login.
    LoginFailed { code: i32 },
    /// The device did not release the session.
    LogoutFailed { code: i32 },
    /// The configuration query failed after writing `bytes_returned` bytes.
    ConfigQueryFailed { code: i32, bytes_returned: u32 },
    /// The device took no picture.
    CaptureFailed { code: i32 },
    /// The device opened no transfer for the recording asked for.
    FileQueryFailed { code: i32 },
    /// The device did not start the transfer.
    PlaybackControlFailed { code: i32 },
    /// The transfer position could not be read.  `code` is the last-error
    /// code where the device reported one, and absent where the position
    /// was merely outside every known range.
    ProgressQueryFailed { code: Option<i32> },
    /// The device did not end the transfer.
    StopFailed { code: i32 },
    /// The transfer lost its connection to the device.
    NetworkError,
    /// The device's configuration does not cover the channels it announced.
    MalformedResponse,
}

/// A native call that failed and whose error code has not been fetched yet.
///
/// The code must be fetched next, before any other native call, and handed
/// to [`Failure::resolve`], which uses the failure up: one failure, one
/// fetch.
#[derive(Debug, PartialEq, Eq)]
pub struct Failure {
    pub operation: Operation,
    /// Bytes that a configuration query had written when it failed; zero
    /// for every other call.
    pub bytes_returned: u32,
}

/// Where an operation stands once the native layer has answered.
#[derive(Debug, PartialEq, Eq)]
pub enum Reply<T> {
    /// The operation is over, with this outcome.
    Done(Result<T, HikError>),
    /// The native call failed: the last-error code is wanted.
    NeedErrorCode(Failure),
}

/// Where an operation stands after a call that reports success by the
/// result 1 and has nothing else to hand back.
pub open spec fn answered(operation: Operation, result: i32) -> Reply<()> {
    if result == 1 {
        Reply::Done(Ok(()))
    } else {
        Reply::NeedErrorCode(Failure { operation, bytes_returned: 0 })
    }
}

impl Operation {
    /// The error that stands for a failure of this call with last-error
    /// code `code`.
    pub open spec fn failure(self, code: i32, bytes_returned: u32) -> HikError {
        match self {
            Operation::Login => HikError::LoginFailed { code },
            Operation::Logout => HikError::LogoutFailed { code },
            Operation::ConfigQuery => HikError::ConfigQueryFailed { code, bytes_returned },
            Operation::Capture => HikError::CaptureFailed { code },
            Operation::FileQuery => HikError::FileQueryFailed { code },
            Operation::PlaybackControl => HikError::PlaybackControlFailed { code },
            Operation::ProgressQuery => HikError::ProgressQueryFailed { code: Some(code) },
            Operation::StopTransfer => HikError::StopFailed { code },
        }
    }
}

impl Failure {
    /// A failure of `operation` that wrote nothing.
    pub fn of(operation: Operation) -> (f: Failure)
        ensures
            f == (Failure { operation, bytes_returned: 0 }),
    {
        Failure { operation, bytes_returned: 0 }
    }

    /// The error that this failure becomes under last-error code `code`.
    pub open spec fn classified(self, code: i32) -> HikError {
        self.operation.failure(code, self.bytes_returned)
    }

    /// Turns the failure into its error, carrying `code` unchanged.
    pub fn resolve(self, code: i32) -> (e: HikError)
        ensures
            e == self.classified(code),
    {
        match self.operation {
            Operation::Login => HikError::LoginFailed { code },
            Operation::Logout => HikError::LogoutFailed { code },
            Operation::ConfigQuery => HikError::ConfigQueryFailed {
                code,
                bytes_returned: self.bytes_returned,
            },
            Operation::Capture => HikError::CaptureFailed { code },
            Operation::FileQuery => HikError::FileQueryFailed { code },
            Operation::PlaybackControl => HikError::PlaybackControlFailed { code },
            Operation::ProgressQuery => HikError::ProgressQueryFailed { code: Some(code) },
            Operation::StopTransfer => HikError::StopFailed { code },
        }
    }
}

impl<T> Reply<T> {
    /// The outcome of the operation once last-error code `code` has been
    /// fetched, where it was wanted.
    pub open spec fn settled(self, code: i32) -> Result<T, HikError> {
        match self {
            Reply::Done(outcome) => outcome,
            Reply::NeedErrorCode(failure) => Err(failure.classified(code)),
        }
    }
}

impl HikError {
    /// The device's error code, where the error carries one.
    pub open spec fn spec_code(self) -> Option<i32> {
        match self {
            HikError::InitFailed { code } => Some(code),
            HikError::LoginFailed { code } => Some(code),
            HikError::LogoutFailed { code } => Some(code),
            HikError::ConfigQueryFailed { code, .. } => Some(code),
            HikError::CaptureFailed { code } => Some(code),
            HikError::FileQueryFailed { code } => Some(code),
            HikError::PlaybackControlFailed { code } => Some(code),
            HikError::ProgressQueryFailed { code } => code,
            HikError::StopFailed { code } => Some(code),
            _ => None,
        }
    }

    /// The device's error code, where the error carries one.
    pub fn code(&self) -> (c: Option<i32>)
        ensures
            c == self.spec_code(),
    {
        match self {
            HikError::InitFailed { code } => Some(*code),
            HikError::LoginFailed { code } => Some(*code),
            HikError::LogoutFailed { code } => Some(*code),
            HikError::ConfigQueryFailed { code, .. } => Some(*code),
            HikError::CaptureFailed { code } => Some(*code),
            HikError::FileQueryFailed { code } => Some(*code),
            HikError::PlaybackControlFailed { code } => Some(*code),
            HikError::ProgressQueryFailed { code } => *code,
            HikError::StopFailed { code } => Some(*code),
            _ => None,
        }
    }
}

/// Whatever failed natively, the fetched code is the code of the error.
pub proof fn lemma_code_is_kept(failure: Failure, code: i32)
    ensures
        failure.classified(code).spec_code() == Some(code),
{
}

} // verus!
