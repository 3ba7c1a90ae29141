use vstd::prelude::*;

verus! {

/// The meaning of a numeric error code returned by the display service.
#[derive(Clone, Copy, Debug, PartialEq, Eq, Structural)]
pub enum CommitErrorKind {
    Failure,
    IllegalArgument,
    InvalidConnection,
    InvalidContext,
    CannotComplete,
    NotImplemented,
    RangeCheck,
    TypeCheck,
    InvalidOperation,
    NoneAvailable,
    Unknown,
}

/// The fixed table of known error codes.
pub open spec fn kind_of_code(code: i32) -> CommitErrorKind {
    if code == 1000 {
        CommitErrorKind::Failure
    } else if code == 1001 {
        CommitErrorKind::IllegalArgument
    } else if code == 1002 {
        CommitErrorKind::InvalidConnection
    } else if code == 1003 {
        CommitErrorKind::InvalidContext
    } else if code == 1004 {
        CommitErrorKind::CannotComplete
    } else if code == 1006 {
        CommitErrorKind::NotImplemented
    } else if code == 1007 {
        CommitErrorKind::RangeCheck
    } else if code == 1008 {
        CommitErrorKind::TypeCheck
    } else if code == 1010 {
        CommitErrorKind::InvalidOperation
    } else if code == 1011 {
        CommitErrorKind::NoneAvailable
    } else {
        CommitErrorKind::Unknown
    }
}

/// The text that explains each kind of error.
pub open spec fn kind_message(k: CommitErrorKind) -> Seq<char> {
    match k {
        CommitErrorKind::Failure => "A general failure occurred.: https://developer.apple.com/documentation/coregraphics/cgerror/failure"@,
        CommitErrorKind::IllegalArgument => "One or more of the parameters passed to a function are invalid. Check for NULL pointers.: https://developer.apple.com/documentation/coregraphics/cgerror/illegalargument"@,
        CommitErrorKind::CannotComplete => "The requested operation is inappropriate for the parameters passed in, or the current system state.: https://developer.apple.com/documentation/coregraphics/cgerror/cannotcomplete"@,
        CommitErrorKind::InvalidConnection => "The parameter representing a connection to the window server is invalid."@,
        CommitErrorKind::InvalidContext => "The CPSProcessSerNum or context identifier parameter is not valid."@,
        CommitErrorKind::InvalidOperation => "The requested operation is not valid for the parameters passed in, or the current system state."@,
        CommitErrorKind::NoneAvailable => "The requested operation could not be completed as the indicated resources were not found."@,
        CommitErrorKind::NotImplemented => "Return value from obsolete function stubs present for binary compatibility, but not typically called."@,
        CommitErrorKind::RangeCheck => "A parameter passed in has a value that is inappropriate, or which does not map to a useful operation or value."@,
        CommitErrorKind::TypeCheck => "A data type or token was encountered that did not match the expected type or token."@,
        CommitErrorKind::Unknown => "Unknown error"@,
    }
}

impl CommitErrorKind {
    /// Looks a numeric error code up in the table; codes outside it are
    /// `Unknown`.
    pub fn from_code(code: i32) -> (r: Self)
        ensures
            r == kind_of_code(code),
    {
        match code {
            1000 => CommitErrorKind::Failure,
            1001 => CommitErrorKind::IllegalArgument,
            1002 => CommitErrorKind::InvalidConnection,
            1003 => CommitErrorKind::InvalidContext,
            1004 => CommitErrorKind::CannotComplete,
            1006 => CommitErrorKind::NotImplemented,
            1007 => CommitErrorKind::RangeCheck,
            1008 => CommitErrorKind::TypeCheck,
            1010 => CommitErrorKind::InvalidOperation,
            1011 => CommitErrorKind::NoneAvailable,
            _ => CommitErrorKind::Unknown,
        }
    }

    /// The human-readable explanation of this kind of error.
    pub fn message(&self) -> (r: &'static str)
        ensures
            r@ == kind_message(*self),
    {
        match self {
            CommitErrorKind::Failure => "A general failure occurred.: https://developer.apple.com/documentation/coregraphics/cgerror/failure",
            CommitErrorKind::IllegalArgument => "One or more of the parameters passed to a function are invalid. Check for NULL pointers.: https://developer.apple.com/documentation/coregraphics/cgerror/illegalargument",
            CommitErrorKind::CannotComplete => "The requested operation is inappropriate for the parameters passed in, or the current system state.: https://developer.apple.com/documentation/coregraphics/cgerror/cannotcomplete",
            CommitErrorKind::InvalidConnection => "The parameter representing a connection to the window server is invalid.",
            CommitErrorKind::InvalidContext => "The CPSProcessSerNum or context identifier parameter is not valid.",
            CommitErrorKind::InvalidOperation => "The requested operation is not valid for the parameters passed in, or the current system state.",
            CommitErrorKind::NoneAvailable => "The requested operation could not be completed as the indicated resources were not found.",
            CommitErrorKind::NotImplemented => "Return value from obsolete function stubs present for binary compatibility, but not typically called.",
            CommitErrorKind::RangeCheck => "A parameter passed in has a value that is inappropriate, or which does not map to a useful operation or value.",
            CommitErrorKind::TypeCheck => "A data type or token was encountered that did not match the expected type or token.",
            CommitErrorKind::Unknown => "Unknown error",
        }
    }
}

/// The explanation of a numeric error code from committing a configuration.
pub fn describe_error_code(code: i32) -> (r: &'static str)
    ensures
        r@ == kind_message(kind_of_code(code)),
{
    CommitErrorKind::from_code(code).message()
}

} // verus!
