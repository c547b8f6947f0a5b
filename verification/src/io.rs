//! Stream and file system related errors.
use crate::sys;
use std::io::ErrorKind;
use vstd::prelude::*;

verus! {

/// Stream and file system related error kinds.
///
/// This list may grow over time, and it is not recommended to exhaustively
/// match against it.
#[derive(Debug, Clone, Copy, PartialEq, Eq, Structural)]
#[non_exhaustive]
pub enum Error {
    NotReady,
    Exists,
    NotExists,
    InvalidParameter,
    Denied,
    InvalidName,
    Internal,
    NotImplemented,
    AlreadyOpen,
    /// I/O error of this library representing the case a call to `write`
    /// returned `Ok(0)`, meaning that the operation could not be completed.
    WriteZero,
    /// Any I/O error from the Flipper Zero SDK that's not part of this list.
    ///
    /// Errors that are `Uncategorized` now may move to a different or a new
    /// [`Error`] variant in the future.
    #[non_exhaustive]
    Uncategorized(sys::FS_Error),
}

/// A specialized `Result` type for I/O operations.
pub type Result<T> = core::result::Result<T, Error>;

impl Error {
    /// The firmware error code of this error, if it has one.
    pub open spec fn spec_to_sys(self) -> Option<sys::FS_Error> {
        match self {
            Error::NotReady => Some(sys::FS_Error(sys::FSE_NOT_READY)),
            Error::Exists => Some(sys::FS_Error(sys::FSE_EXIST)),
            Error::NotExists => Some(sys::FS_Error(sys::FSE_NOT_EXIST)),
            Error::InvalidParameter => Some(sys::FS_Error(sys::FSE_INVALID_PARAMETER)),
            Error::Denied => Some(sys::FS_Error(sys::FSE_DENIED)),
            Error::InvalidName => Some(sys::FS_Error(sys::FSE_INVALID_NAME)),
            Error::Internal => Some(sys::FS_Error(sys::FSE_INTERNAL)),
            Error::NotImplemented => Some(sys::FS_Error(sys::FSE_NOT_IMPLEMENTED)),
            Error::AlreadyOpen => Some(sys::FS_Error(sys::FSE_ALREADY_OPEN)),
            Error::Uncategorized(code) => Some(code),
            Error::WriteZero => None,
        }
    }

    /// The error a firmware error code stands for; none for `FSE_OK`.
    pub open spec fn spec_from_sys(err: sys::FS_Error) -> Option<Error> {
        if err.0 == sys::FSE_OK {
            None
        } else if err.0 == sys::FSE_NOT_READY {
            Some(Error::NotReady)
        } else if err.0 == sys::FSE_EXIST {
            Some(Error::Exists)
        } else if err.0 == sys::FSE_NOT_EXIST {
            Some(Error::NotExists)
        } else if err.0 == sys::FSE_INVALID_PARAMETER {
            Some(Error::InvalidParameter)
        } else if err.0 == sys::FSE_DENIED {
            Some(Error::Denied)
        } else if err.0 == sys::FSE_INVALID_NAME {
            Some(Error::InvalidName)
        } else if err.0 == sys::FSE_INTERNAL {
            Some(Error::Internal)
        } else if err.0 == sys::FSE_NOT_IMPLEMENTED {
            Some(Error::NotImplemented)
        } else if err.0 == sys::FSE_ALREADY_OPEN {
            Some(Error::AlreadyOpen)
        } else {
            Some(Error::Uncategorized(err))
        }
    }

    /// The firmware error code of this error; `None` for [`Error::WriteZero`],
    /// which the firmware has no code for.
    pub fn to_sys(&self) -> (code: Option<sys::FS_Error>)
        ensures
            code == self.spec_to_sys(),
    {
        match self {
            Self::NotReady => Some(sys::FS_Error(sys::FSE_NOT_READY)),
            Self::Exists => Some(sys::FS_Error(sys::FSE_EXIST)),
            Self::NotExists => Some(sys::FS_Error(sys::FSE_NOT_EXIST)),
            Self::InvalidParameter => Some(sys::FS_Error(sys::FSE_INVALID_PARAMETER)),
            Self::Denied => Some(sys::FS_Error(sys::FSE_DENIED)),
            Self::InvalidName => Some(sys::FS_Error(sys::FSE_INVALID_NAME)),
            Self::Internal => Some(sys::FS_Error(sys::FSE_INTERNAL)),
            Self::NotImplemented => Some(sys::FS_Error(sys::FSE_NOT_IMPLEMENTED)),
            Self::AlreadyOpen => Some(sys::FS_Error(sys::FSE_ALREADY_OPEN)),
            Self::Uncategorized(error_code) => Some(*error_code),
            _ => None,
        }
    }

    /// The error a firmware error code stands for; `None` for `FSE_OK`.
    pub fn from_sys(err: sys::FS_Error) -> (error: Option<Self>)
        ensures
            error == Self::spec_from_sys(err),
    {
        if err.0 == sys::FSE_OK {
            None
        } else if err.0 == sys::FSE_NOT_READY {
            Some(Self::NotReady)
        } else if err.0 == sys::FSE_EXIST {
            Some(Self::Exists)
        } else if err.0 == sys::FSE_NOT_EXIST {
            Some(Self::NotExists)
        } else if err.0 == sys::FSE_INVALID_PARAMETER {
            Some(Self::InvalidParameter)
        } else if err.0 == sys::FSE_DENIED {
            Some(Self::Denied)
        } else if err.0 == sys::FSE_INVALID_NAME {
            Some(Self::InvalidName)
        } else if err.0 == sys::FSE_INTERNAL {
            Some(Self::Internal)
        } else if err.0 == sys::FSE_NOT_IMPLEMENTED {
            Some(Self::NotImplemented)
        } else if err.0 == sys::FSE_ALREADY_OPEN {
            Some(Self::AlreadyOpen)
        } else {
            Some(Self::Uncategorized(err))
        }
    }
}

/// Every firmware error code other than `FSE_OK` stands for an error, and
/// that error's code is the code it came from.
pub proof fn law_from_sys_then_to_sys(err: sys::FS_Error)
    ensures
        Error::spec_from_sys(err) is None <==> err.0 == sys::FSE_OK,
        Error::spec_from_sys(err) matches Some(e) ==> e.spec_to_sys() == Some(err),
{
}

/// Every error with a firmware code converts back to itself, except an
/// uncategorized error whose code names a known error.
pub proof fn law_to_sys_then_from_sys(e: Error)
    requires
        !(e is WriteZero),
        e matches Error::Uncategorized(code) ==> code.0 > sys::FSE_ALREADY_OPEN,
    ensures
        e.spec_to_sys() matches Some(code) && Error::spec_from_sys(code) == Some(e),
{
}

/// Each named error stands for the firmware error code of its own name:
/// converting the error gives that code, and a code converts to the error
/// exactly when it is that code. A code no error is named after converts to
/// an uncategorized error holding it.
pub proof fn law_firmware_error_codes(e: Error, code: sys::FS_Error)
    ensures
        e == Error::NotReady ==> e.spec_to_sys() == Some(sys::FS_Error(sys::FSE_NOT_READY)),
        e == Error::Exists ==> e.spec_to_sys() == Some(sys::FS_Error(sys::FSE_EXIST)),
        e == Error::NotExists ==> e.spec_to_sys() == Some(sys::FS_Error(sys::FSE_NOT_EXIST)),
        e == Error::InvalidParameter ==> e.spec_to_sys() == Some(sys::FS_Error(sys::FSE_INVALID_PARAMETER)),
        e == Error::Denied ==> e.spec_to_sys() == Some(sys::FS_Error(sys::FSE_DENIED)),
        e == Error::InvalidName ==> e.spec_to_sys() == Some(sys::FS_Error(sys::FSE_INVALID_NAME)),
        e == Error::Internal ==> e.spec_to_sys() == Some(sys::FS_Error(sys::FSE_INTERNAL)),
        e == Error::NotImplemented ==> e.spec_to_sys() == Some(sys::FS_Error(sys::FSE_NOT_IMPLEMENTED)),
        e == Error::AlreadyOpen ==> e.spec_to_sys() == Some(sys::FS_Error(sys::FSE_ALREADY_OPEN)),
        Error::spec_from_sys(code) == Some(Error::NotReady) <==> code.0 == sys::FSE_NOT_READY,
        Error::spec_from_sys(code) == Some(Error::Exists) <==> code.0 == sys::FSE_EXIST,
        Error::spec_from_sys(code) == Some(Error::NotExists) <==> code.0 == sys::FSE_NOT_EXIST,
        Error::spec_from_sys(code) == Some(Error::InvalidParameter) <==> code.0 == sys::FSE_INVALID_PARAMETER,
        Error::spec_from_sys(code) == Some(Error::Denied) <==> code.0 == sys::FSE_DENIED,
        Error::spec_from_sys(code) == Some(Error::InvalidName) <==> code.0 == sys::FSE_INVALID_NAME,
        Error::spec_from_sys(code) == Some(Error::Internal) <==> code.0 == sys::FSE_INTERNAL,
        Error::spec_from_sys(code) == Some(Error::NotImplemented) <==> code.0 == sys::FSE_NOT_IMPLEMENTED,
        Error::spec_from_sys(code) == Some(Error::AlreadyOpen) <==> code.0 == sys::FSE_ALREADY_OPEN,
        code.0 > sys::FSE_ALREADY_OPEN ==> Error::spec_from_sys(code) == Some(Error::Uncategorized(code)),
        e == Error::WriteZero ==> e.spec_to_sys() is None,
{
}

/// The characters of a chunk of bytes, each byte taken as the character
/// with its code.
pub open spec fn latin1_chars(bytes: Seq<u8>) -> Seq<char> {
    bytes.map_values(|byte: u8| byte as char)
}

/// One round of reading a stream into a string: an empty chunk ends the
/// reading, with `None`; any other chunk has its bytes appended to `string`
/// as characters, and the new count of bytes read is returned.
pub fn read_to_string_step(string: &mut Vec<char>, total_bytes_read: usize, chunk: &[u8]) -> (total: Option<usize>)
    requires
        total_bytes_read + chunk@.len() <= usize::MAX,
    ensures
        chunk@.len() == 0 ==> total is None && final(string)@ == old(string)@,
        chunk@.len() > 0 ==> total == Some((total_bytes_read + chunk@.len()) as usize) && final(string)@ == old(
            string,
        )@ + latin1_chars(chunk@),
{
    if chunk.len() == 0 {
        return None;
    }
    let mut i: usize = 0;
    while i < chunk.len()
        invariant
            i <= chunk@.len(),
            string@ == old(string)@ + latin1_chars(chunk@.subrange(0, i as int)),
        decreases chunk@.len() - i,
    {
        let ch = chunk[i] as char;
        string.push(ch);
        proof {
            assert(latin1_chars(chunk@.subrange(0, i + 1)) =~= latin1_chars(chunk@.subrange(0, i as int)).push(ch));
        }
        i = i + 1;
    }
    proof {
        assert(chunk@.subrange(0, chunk@.len() as int) =~= chunk@);
    }
    Some(total_bytes_read + chunk.len())
}

/// std's kinds of I/O errors: a public enum whose variants carry no fields,
/// which verified code matches on.
#[verifier::external_type_specification]
pub struct ExErrorKind(std::io::ErrorKind);

/// How std's I/O error for an [`Error`] is made: from a kind, or as an
/// "other" error with a message.
#[derive(Debug, Clone, Copy, PartialEq, Eq)]
pub enum IoErrorSource {
    Kind(ErrorKind),
    Other(&'static str),
}

/// How std's I/O error for `error` is made.
pub open spec fn spec_io_error_source(error: Error) -> IoErrorSource {
    match error {
        Error::NotReady => IoErrorSource::Kind(ErrorKind::ResourceBusy),
        Error::Exists => IoErrorSource::Kind(ErrorKind::AlreadyExists),
        Error::NotExists => IoErrorSource::Kind(ErrorKind::NotFound),
        Error::InvalidParameter => IoErrorSource::Kind(ErrorKind::InvalidInput),
        Error::Denied => IoErrorSource::Kind(ErrorKind::PermissionDenied),
        Error::InvalidName => IoErrorSource::Kind(ErrorKind::InvalidFilename),
        Error::Internal => IoErrorSource::Other("Internal"),
        Error::NotImplemented => IoErrorSource::Kind(ErrorKind::Unsupported),
        Error::AlreadyOpen => IoErrorSource::Other("Already Open"),
        Error::WriteZero => IoErrorSource::Kind(ErrorKind::WriteZero),
        Error::Uncategorized(_) => IoErrorSource::Other("Unknown error"),
    }
}

/// The error for std's I/O error kind `kind`.
pub open spec fn spec_error_from_io_error_kind(kind: ErrorKind) -> Error {
    match kind {
        ErrorKind::ResourceBusy => Error::NotReady,
        ErrorKind::AlreadyExists => Error::Exists,
        ErrorKind::NotFound => Error::NotExists,
        ErrorKind::InvalidInput => Error::InvalidParameter,
        ErrorKind::PermissionDenied => Error::Denied,
        ErrorKind::InvalidFilename => Error::InvalidName,
        ErrorKind::Unsupported => Error::NotImplemented,
        ErrorKind::WriteZero => Error::WriteZero,
        _ => Error::Uncategorized(sys::FS_Error(255)),
    }
}

/// How std's I/O error for `error` is made.
pub fn io_error_source(error: Error) -> (source: IoErrorSource)
    ensures
        source == spec_io_error_source(error),
{
    match error {
        Error::NotReady => IoErrorSource::Kind(ErrorKind::ResourceBusy),
        Error::Exists => IoErrorSource::Kind(ErrorKind::AlreadyExists),
        Error::NotExists => IoErrorSource::Kind(ErrorKind::NotFound),
        Error::InvalidParameter => IoErrorSource::Kind(ErrorKind::InvalidInput),
        Error::Denied => IoErrorSource::Kind(ErrorKind::PermissionDenied),
        Error::InvalidName => IoErrorSource::Kind(ErrorKind::InvalidFilename),
        Error::Internal => IoErrorSource::Other("Internal"),
        Error::NotImplemented => IoErrorSource::Kind(ErrorKind::Unsupported),
        Error::AlreadyOpen => IoErrorSource::Other("Already Open"),
        Error::WriteZero => IoErrorSource::Kind(ErrorKind::WriteZero),
        Error::Uncategorized(_) => IoErrorSource::Other("Unknown error"),
    }
}

/// The error for std's I/O error kind `kind`: the kinds that stand for one
/// of the errors give it; any other kind is uncategorized, with the
/// firmware code 255.
pub fn error_from_io_error_kind(kind: ErrorKind) -> (error: Error)
    ensures
        error == spec_error_from_io_error_kind(kind),
{
    match kind {
        ErrorKind::ResourceBusy => Error::NotReady,
        ErrorKind::AlreadyExists => Error::Exists,
        ErrorKind::NotFound => Error::NotExists,
        ErrorKind::InvalidInput => Error::InvalidParameter,
        ErrorKind::PermissionDenied => Error::Denied,
        ErrorKind::InvalidFilename => Error::InvalidName,
        ErrorKind::Unsupported => Error::NotImplemented,
        ErrorKind::WriteZero => Error::WriteZero,
        _ => Error::Uncategorized(sys::FS_Error(u8::MAX)),
    }
}

/// Each error std represents by a kind has its own kind: the kind of the
/// same meaning (an error that exists is `AlreadyExists`, one that does not
/// is `NotFound`, and so on), held by no other error, and that kind converts
/// back to exactly that error. Errors std has no kind for become "other"
/// errors, and a kind no error stands for becomes an uncategorized error.
pub proof fn law_io_error_kinds(e: Error, kind: ErrorKind)
    ensures
        spec_io_error_source(e) == IoErrorSource::Kind(ErrorKind::ResourceBusy) <==> e == Error::NotReady,
        spec_io_error_source(e) == IoErrorSource::Kind(ErrorKind::AlreadyExists) <==> e == Error::Exists,
        spec_io_error_source(e) == IoErrorSource::Kind(ErrorKind::NotFound) <==> e == Error::NotExists,
        spec_io_error_source(e) == IoErrorSource::Kind(ErrorKind::InvalidInput) <==> e == Error::InvalidParameter,
        spec_io_error_source(e) == IoErrorSource::Kind(ErrorKind::PermissionDenied) <==> e == Error::Denied,
        spec_io_error_source(e) == IoErrorSource::Kind(ErrorKind::InvalidFilename) <==> e == Error::InvalidName,
        spec_io_error_source(e) == IoErrorSource::Kind(ErrorKind::Unsupported) <==> e == Error::NotImplemented,
        spec_io_error_source(e) == IoErrorSource::Kind(ErrorKind::WriteZero) <==> e == Error::WriteZero,
        spec_error_from_io_error_kind(kind) == Error::NotReady <==> kind == ErrorKind::ResourceBusy,
        spec_error_from_io_error_kind(kind) == Error::Exists <==> kind == ErrorKind::AlreadyExists,
        spec_error_from_io_error_kind(kind) == Error::NotExists <==> kind == ErrorKind::NotFound,
        spec_error_from_io_error_kind(kind) == Error::InvalidParameter <==> kind == ErrorKind::InvalidInput,
        spec_error_from_io_error_kind(kind) == Error::Denied <==> kind == ErrorKind::PermissionDenied,
        spec_error_from_io_error_kind(kind) == Error::InvalidName <==> kind == ErrorKind::InvalidFilename,
        spec_error_from_io_error_kind(kind) == Error::NotImplemented <==> kind == ErrorKind::Unsupported,
        spec_error_from_io_error_kind(kind) == Error::WriteZero <==> kind == ErrorKind::WriteZero,
        (e is Internal || e is AlreadyOpen || e is Uncategorized) <==> spec_io_error_source(e) is Other,
        spec_error_from_io_error_kind(kind) is Uncategorized ==> spec_error_from_io_error_kind(kind) == Error::Uncategorized(sys::FS_Error(255)),
{
}

/// An error that std represents by a kind comes back from that kind.
pub proof fn law_io_error_kind_roundtrip(error: Error)
    ensures
        spec_io_error_source(error) matches IoErrorSource::Kind(kind) ==> spec_error_from_io_error_kind(kind) == error,
{
}

} // verus!
