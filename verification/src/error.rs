//! The flat error taxonomy of the plug-in interface and its mapping to and
//! from the 32-bit result codes that cross the binary boundary.

use vstd::prelude::*;
use vstd::std_specs::convert::FromSpecImpl;
use vstd::string::StringExecFns;

verus! {

/// Result code of a call that succeeded.
pub const RESULT_OK: i32 = 0;

/// Result code that stands for "true" where the protocol answers a question.
pub const RESULT_TRUE: i32 = 0;

/// Result code that stands for "false", or for a call that did nothing.
pub const RESULT_FALSE: i32 = 1;

/// Result code of a query for a capability that the object does not have.
pub const NO_INTERFACE: i32 = -1;

/// Result code of a call with an argument that the callee rejects.
pub const INVALID_ARGUMENT: i32 = 2;

/// Result code of a call that the callee does not implement.
pub const NOT_IMPLEMENTED: i32 = 3;

/// Result code of a failure inside the callee.
pub const INTERNAL_ERROR: i32 = 4;

/// Result code of a call on an object that was not initialized.
pub const NOT_INITIALIZED: i32 = 5;

/// Result code of a call that ran out of memory.
pub const OUT_OF_MEMORY: i32 = 6;

/// Why a call across the plug-in boundary was rejected.
#[derive(Copy, Clone, Debug, PartialEq, Eq, Structural)]
pub enum Error {
    False,
    Internal,
    InvalidArg,
    NoInterface,
    NotImplemented,
    OutOfMemory,
    NotInitialized,
}

/// The result code that stands for `error`.
pub open spec fn error_code(error: Error) -> i32 {
    match error {
        Error::False => RESULT_FALSE,
        Error::Internal => INTERNAL_ERROR,
        Error::InvalidArg => INVALID_ARGUMENT,
        Error::NoInterface => NO_INTERFACE,
        Error::NotImplemented => NOT_IMPLEMENTED,
        Error::OutOfMemory => OUT_OF_MEMORY,
        Error::NotInitialized => NOT_INITIALIZED,
    }
}

/// The result code that stands for `result`.
pub open spec fn result_code(result: Result<(), Error>) -> i32 {
    match result {
        Ok(_) => RESULT_OK,
        Err(e) => error_code(e),
    }
}

/// What a result code means: zero is success, each error has its own code,
/// and every other code counts as `Error::False`.
pub open spec fn code_result(code: i32) -> Result<(), Error> {
    if code == RESULT_OK {
        Ok(())
    } else if code == INTERNAL_ERROR {
        Err(Error::Internal)
    } else if code == INVALID_ARGUMENT {
        Err(Error::InvalidArg)
    } else if code == NO_INTERFACE {
        Err(Error::NoInterface)
    } else if code == NOT_IMPLEMENTED {
        Err(Error::NotImplemented)
    } else if code == OUT_OF_MEMORY {
        Err(Error::OutOfMemory)
    } else if code == NOT_INITIALIZED {
        Err(Error::NotInitialized)
    } else {
        Err(Error::False)
    }
}

/// The text that describes `error`.
pub open spec fn error_message(error: Error) -> Seq<char> {
    match error {
        Error::False => "False."@,
        Error::Internal => "Internal error."@,
        Error::InvalidArg => "Invalid argument."@,
        Error::NoInterface => "No interface."@,
        Error::NotImplemented => "Not implemented."@,
        Error::OutOfMemory => "Out of memory."@,
        Error::NotInitialized => "Not initialized."@,
    }
}

impl Error {
    /// The result code of this error.
    pub fn code(self) -> (code: i32)
        ensures
            code == error_code(self),
            code != RESULT_OK,
    {
        match self {
            Error::False => RESULT_FALSE,
            Error::Internal => INTERNAL_ERROR,
            Error::InvalidArg => INVALID_ARGUMENT,
            Error::NoInterface => NO_INTERFACE,
            Error::NotImplemented => NOT_IMPLEMENTED,
            Error::OutOfMemory => OUT_OF_MEMORY,
            Error::NotInitialized => NOT_INITIALIZED,
        }
    }

    /// A one-sentence description of this error.
    pub fn to_string(&self) -> (text: String)
        ensures
            text@ == error_message(*self),
    {
        match self {
            Error::False => String::from_str("False."),
            Error::Internal => String::from_str("Internal error."),
            Error::InvalidArg => String::from_str("Invalid argument."),
            Error::NoInterface => String::from_str("No interface."),
            Error::NotImplemented => String::from_str("Not implemented."),
            Error::OutOfMemory => String::from_str("Out of memory."),
            Error::NotInitialized => String::from_str("Not initialized."),
        }
    }
}

impl From<Error> for i32 {
    fn from(value: Error) -> (code: i32) {
        value.code()
    }
}

impl FromSpecImpl<Error> for i32 {
    open spec fn obeys_from_spec() -> bool {
        true
    }

    open spec fn from_spec(value: Error) -> i32 {
        error_code(value)
    }
}

/// Turns the outcome of a callback into the code handed back to the caller.
pub trait ToCodeExt {
    fn to_code(&self) -> i32;
}

impl ToCodeExt for Result<(), Error> {
    fn to_code(&self) -> (code: i32)
        ensures
            code == result_code(*self),
    {
        match self {
            Ok(_) => RESULT_OK,
            Err(e) => e.code(),
        }
    }
}

/// Turns a result code that came back from a call into an outcome.
pub trait ToResultExt {
    fn as_result(&self) -> Result<(), Error>;
}

impl ToResultExt for i32 {
    fn as_result(&self) -> (result: Result<(), Error>)
        ensures
            result == code_result(*self),
            result is Ok <==> *self == RESULT_OK,
    {
        let code: i32 = *self;
        if code == RESULT_OK {
            Ok(())
        } else if code == INTERNAL_ERROR {
            Err(Error::Internal)
        } else if code == INVALID_ARGUMENT {
            Err(Error::InvalidArg)
        } else if code == NO_INTERFACE {
            Err(Error::NoInterface)
        } else if code == NOT_IMPLEMENTED {
            Err(Error::NotImplemented)
        } else if code == OUT_OF_MEMORY {
            Err(Error::OutOfMemory)
        } else if code == NOT_INITIALIZED {
            Err(Error::NotInitialized)
        } else {
            Err(Error::False)
        }
    }
}

/// The byte that a yes or a no is handed over as: one for yes, zero for no.
pub open spec fn flag_code(value: bool) -> u8 {
    if value {
        1
    } else {
        0
    }
}

/// The yes or no that a byte stands for: no for zero, yes for every other
/// byte.
pub open spec fn flag_value(code: u8) -> bool {
    code != 0
}

/// The byte to hand over for a yes or a no.
pub fn to_flag(value: bool) -> (code: u8)
    ensures
        code == flag_code(value),
{
    if value {
        1
    } else {
        0
    }
}

/// The yes or no that was handed over as `code`.
pub fn from_flag(code: u8) -> (value: bool)
    ensures
        value == flag_value(code),
{
    code != 0
}

/// A yes or a no is read back from the byte that it was handed over as.
pub proof fn lemma_flag_round_trip(value: bool)
    ensures
        flag_value(flag_code(value)) == value,
{
}

/// Every outcome survives the trip through its result code.
pub proof fn lemma_code_round_trip(result: Result<(), Error>)
    ensures
        code_result(result_code(result)) == result,
{
    match result {
        Ok(unit) => {
            assert(unit == ());
        },
        Err(_) => {},
    }
}

/// Two errors with the same result code are the same error.
pub proof fn lemma_error_code_injective(a: Error, b: Error)
    requires
        error_code(a) == error_code(b),
    ensures
        a == b,
{
}

} // verus!
