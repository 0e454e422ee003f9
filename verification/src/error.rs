//! What can go wrong: a caller that is not authorized, and remote calls that
//! fail at one stage or another of a workflow.

use crate::principal::{principal_text, Principal};
use vstd::prelude::*;
use vstd::string::StringExecFns;

verus! {

/// The code with which the system rejects a call.
#[derive(Clone, Copy, Debug, PartialEq, Eq, Structural)]
pub enum RejectionCode {
    NoError,
    SysFatal,
    SysTransient,
    DestinationInvalid,
    CanisterReject,
    CanisterError,
    Unknown,
}

impl RejectionCode {
    /// The code that the system writes as `code`; every number it does not
    /// define is `Unknown`.
    pub open spec fn of(code: int) -> RejectionCode {
        if code == 0 {
            RejectionCode::NoError
        } else if code == 1 {
            RejectionCode::SysFatal
        } else if code == 2 {
            RejectionCode::SysTransient
        } else if code == 3 {
            RejectionCode::DestinationInvalid
        } else if code == 4 {
            RejectionCode::CanisterReject
        } else if code == 5 {
            RejectionCode::CanisterError
        } else {
            RejectionCode::Unknown
        }
    }

    /// The name of the code, as diagnostics print it.
    pub open spec fn name(self) -> Seq<char> {
        match self {
            RejectionCode::NoError => "NoError"@,
            RejectionCode::SysFatal => "SysFatal"@,
            RejectionCode::SysTransient => "SysTransient"@,
            RejectionCode::DestinationInvalid => "DestinationInvalid"@,
            RejectionCode::CanisterReject => "CanisterReject"@,
            RejectionCode::CanisterError => "CanisterError"@,
            RejectionCode::Unknown => "Unknown"@,
        }
    }

    /// The code that the system writes as `code`.
    pub fn from_i32(code: i32) -> (r: RejectionCode)
        ensures
            r == RejectionCode::of(code as int),
    {
        match code {
            0 => RejectionCode::NoError,
            1 => RejectionCode::SysFatal,
            2 => RejectionCode::SysTransient,
            3 => RejectionCode::DestinationInvalid,
            4 => RejectionCode::CanisterReject,
            5 => RejectionCode::CanisterError,
            _ => RejectionCode::Unknown,
        }
    }
}

/// Why a remote call produced no response of the declared shape.
#[derive(Clone, Debug, PartialEq, Eq)]
pub enum CallError {
    /// The call could not be queued.
    CouldNotSend,
    /// The call was rejected, with this code and message.
    Rejected(RejectionCode, String),
    /// The call was answered, but these bytes do not decode to the declared
    /// response.
    ResponseDeserializationError(Vec<u8>),
}

pub enum CallErrorView {
    CouldNotSend,
    Rejected(RejectionCode, Seq<char>),
    ResponseDeserializationError(Seq<u8>),
}

impl CallErrorView {
    /// The diagnostic of the failure.
    pub open spec fn text(self) -> Seq<char> {
        match self {
            CallErrorView::CouldNotSend => "Could not send message"@,
            CallErrorView::Rejected(code, message) => "Call rejected (code="@ + code.name()
                + "): '"@ + message + "'"@,
            CallErrorView::ResponseDeserializationError(_) => "Could not deserialize the response."@,
        }
    }
}

impl View for CallError {
    type V = CallErrorView;

    open spec fn view(&self) -> CallErrorView {
        match self {
            CallError::CouldNotSend => CallErrorView::CouldNotSend,
            CallError::Rejected(code, message) => CallErrorView::Rejected(*code, message@),
            CallError::ResponseDeserializationError(bytes) => CallErrorView::ResponseDeserializationError(bytes@),
        }
    }
}

impl CallError {
    /// The diagnostic of the failure.
    pub fn message(&self) -> (text: String)
        ensures
            text@ == self@.text(),
    {
        diagnostic(self)
    }
}

/// Prints the failure as `ic_kit::ic::CallError` displays it: a fixed sentence
/// for a call that was not sent and for a response that does not decode, and
/// for a rejection the sentence that holds the code's name as `Debug` derives
/// it, and the message between single quotes.
#[verifier::external_body]
fn diagnostic(error: &CallError) -> (text: String)
    ensures
        text@ == error@.text(),
{
    let outside = match error {
        CallError::CouldNotSend => ic_kit::ic::CallError::CouldNotSend,
        CallError::Rejected(code, message) => {
            ic_kit::ic::CallError::Rejected((*code as i32).into(), message.clone())
        },
        CallError::ResponseDeserializationError(bytes) => {
            ic_kit::ic::CallError::ResponseDeserializationError(bytes.clone())
        },
    };
    outside.to_string()
}

/// The failure of an entry point.
#[derive(Clone, Debug, PartialEq, Eq)]
pub enum Error {
    /// The caller is not in the authorized set.
    NotAuthorized(Principal),
    /// No canister could be created.
    ReservationFailed(CallError),
    /// The code could not be installed on the canister.
    InstallFailed(CallError),
    /// The code is installed, but the caller could not be authorized on the
    /// new canister.
    PostInstallAuthorizationFailed(CallError),
}

pub enum ErrorView {
    NotAuthorized(Seq<u8>),
    ReservationFailed(CallErrorView),
    InstallFailed(CallErrorView),
    PostInstallAuthorizationFailed(CallErrorView),
}

impl ErrorView {
    /// The message that the caller of the entry point receives.
    pub open spec fn text(self) -> Seq<char> {
        match self {
            ErrorView::NotAuthorized(caller) => "User not found "@ + principal_text(caller),
            ErrorView::ReservationFailed(e) => "Failed to reserve canister id: "@ + e.text(),
            ErrorView::InstallFailed(e) => "Failed to install code: "@ + e.text(),
            ErrorView::PostInstallAuthorizationFailed(e) => "Failed to authorize caller for upload: "@
                + e.text(),
        }
    }
}

impl View for Error {
    type V = ErrorView;

    open spec fn view(&self) -> ErrorView {
        match self {
            Error::NotAuthorized(caller) => ErrorView::NotAuthorized(caller@),
            Error::ReservationFailed(e) => ErrorView::ReservationFailed(e@),
            Error::InstallFailed(e) => ErrorView::InstallFailed(e@),
            Error::PostInstallAuthorizationFailed(e) => ErrorView::PostInstallAuthorizationFailed(e@),
        }
    }
}

/// The view of what an entry point without a value returns.
pub open spec fn finished(result: Result<(), Error>) -> Result<(), ErrorView> {
    match result {
        Ok(_) => Ok(()),
        Err(e) => Err(e@),
    }
}

impl Error {
    /// The message that the caller of the entry point receives.
    pub fn message(&self) -> (text: String)
        ensures
            text@ == self@.text(),
    {
        match self {
            Error::NotAuthorized(caller) => {
                let who = caller.to_text();
                String::from_str("User not found ").concat(who.as_str())
            },
            Error::ReservationFailed(e) => {
                let why = e.message();
                String::from_str("Failed to reserve canister id: ").concat(why.as_str())
            },
            Error::InstallFailed(e) => {
                let why = e.message();
                String::from_str("Failed to install code: ").concat(why.as_str())
            },
            Error::PostInstallAuthorizationFailed(e) => {
                let why = e.message();
                String::from_str("Failed to authorize caller for upload: ").concat(why.as_str())
            },
        }
    }
}

} // verus!
