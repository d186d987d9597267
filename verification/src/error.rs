//! The outcomes of a native call.

use vstd::prelude::*;

verus! {

/// Status word that every native call returns.
#[allow(non_camel_case_types)]
pub type hv_return_t = u32;

/// The call succeeded.
pub const HV_SUCCESS: hv_return_t = 0;

/// The call failed for a reason that has no code of its own.
pub const HV_ERROR: hv_return_t = 0xfae94001;

/// The resource is in use: a virtual machine exists already.
pub const HV_BUSY: hv_return_t = 0xfae94002;

/// An argument was refused.
pub const HV_BAD_ARGUMENT: hv_return_t = 0xfae94003;

/// The host has run out of a resource.
pub const HV_NO_RESOURCES: hv_return_t = 0xfae94005;

/// The object addressed does not exist.
pub const HV_NO_DEVICE: hv_return_t = 0xfae94006;

/// The host does not offer the facility.
pub const HV_UNSUPPORTED: hv_return_t = 0xfae9400f;

/// The closed set of outcomes that a native status word is sorted into.
#[derive(Clone, Copy, Debug, PartialEq, Eq, Structural)]
pub enum Error {
    Success,
    Error,
    Busy,
    BadArg,
    NoRes,
    NoDev,
    Unsupp,
}

impl Error {
    /// The outcome that a status word stands for. Every word has one: a word
    /// that is none of the known codes counts as the general failure.
    pub open spec fn classify(code: hv_return_t) -> Error {
        if code == HV_SUCCESS {
            Error::Success
        } else if code == HV_BUSY {
            Error::Busy
        } else if code == HV_BAD_ARGUMENT {
            Error::BadArg
        } else if code == HV_NO_RESOURCES {
            Error::NoRes
        } else if code == HV_NO_DEVICE {
            Error::NoDev
        } else if code == HV_UNSUPPORTED {
            Error::Unsupp
        } else {
            Error::Error
        }
    }

    /// The text of [`Error::message`].
    pub open spec fn message_text(self) -> Seq<char> {
        match self {
            Error::Success => "success"@,
            Error::Error => "error"@,
            Error::Busy => "busy"@,
            Error::BadArg => "bad argument"@,
            Error::NoRes => "no resource"@,
            Error::NoDev => "no device"@,
            Error::Unsupp => "unsupported"@,
        }
    }

    /// A short description of the outcome, for messages.
    pub fn message(&self) -> (text: &'static str)
        ensures
            text@ == self.message_text(),
    {
        match self {
            Error::Success => "success",
            Error::Error => "error",
            Error::Busy => "busy",
            Error::BadArg => "bad argument",
            Error::NoRes => "no resource",
            Error::NoDev => "no device",
            Error::Unsupp => "unsupported",
        }
    }
}

/// What a call that returns nothing but its status word amounts to.
pub open spec fn status_outcome(code: hv_return_t) -> Result<(), Error> {
    if code == HV_SUCCESS {
        Ok(())
    } else {
        Err(Error::classify(code))
    }
}

/// What a call that hands back one value amounts to: the value, if the call
/// succeeded.
pub open spec fn value_outcome(code: hv_return_t, value: u64) -> Result<u64, Error> {
    if code == HV_SUCCESS {
        Ok(value)
    } else {
        Err(Error::classify(code))
    }
}

/// Sorts the status word of a native call. The call succeeded exactly when
/// the word is `HV_SUCCESS`; every other word is a failure, and none is left
/// without an outcome.
pub fn match_error_code(code: hv_return_t) -> (outcome: Result<(), Error>)
    ensures
        outcome == status_outcome(code),
        outcome is Ok <==> code == HV_SUCCESS,
        outcome matches Err(e) ==> e != Error::Success,
{
    match code {
        HV_SUCCESS => Ok(()),
        HV_BUSY => Err(Error::Busy),
        HV_BAD_ARGUMENT => Err(Error::BadArg),
        HV_NO_RESOURCES => Err(Error::NoRes),
        HV_NO_DEVICE => Err(Error::NoDev),
        HV_UNSUPPORTED => Err(Error::Unsupp),
        _ => Err(Error::Error),
    }
}

/// Sorts the status word of a native call that hands back a value, and keeps
/// the value only if the call succeeded.
pub fn match_value(code: hv_return_t, value: u64) -> (outcome: Result<u64, Error>)
    ensures
        outcome == value_outcome(code, value),
{
    match match_error_code(code) {
        Ok(()) => Ok(value),
        Err(e) => Err(e),
    }
}

} // verus!
