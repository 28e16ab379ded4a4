use vstd::prelude::*;

verus! {

/// The error type of the stream operations, with the error codes of the
/// audio transport.
#[derive(Debug, Copy, Clone, PartialEq, Eq, Structural)]
pub enum Error {
    /// Out of memory.
    NoMem,
    /// The backend does not appear to be active or running.
    InitAudioBackend,
    /// A system resource other than memory was not available.
    SystemResources,
    /// Attempted to open a device and failed.
    OpeningDevice,
    /// No device found.
    NoSuchDevice,
    /// The programmer did not comply with the API.
    Invalid,
    /// The backend is not available in this build.
    BackendUnavailable,
    /// An open stream had an error that can only be recovered from by
    /// destroying the stream and creating it again.
    Streaming,
    /// Attempted to use a device with parameters it cannot support.
    IncompatibleDevice,
    /// The sound server knows no such client.
    NoSuchClient,
    /// Attempted to use parameters that the backend cannot support.
    IncompatibleBackend,
    /// Backend server shutdown or became inactive.
    BackendDisconnected,
    /// The operation was interrupted.
    Interrupted,
    /// Buffer underrun occurred.
    Underflow,
    /// Unable to convert to or from UTF-8 to the native string format.
    EncodingString,
    /// An error code that the transport never returns.
    Unknown,
}

/// The error that a nonzero transport error code stands for.
pub open spec fn error_of_code(code: i32) -> Error {
    if code == 1 {
        Error::NoMem
    } else if code == 2 {
        Error::InitAudioBackend
    } else if code == 3 {
        Error::SystemResources
    } else if code == 4 {
        Error::OpeningDevice
    } else if code == 5 {
        Error::NoSuchDevice
    } else if code == 6 {
        Error::Invalid
    } else if code == 7 {
        Error::BackendUnavailable
    } else if code == 8 {
        Error::Streaming
    } else if code == 9 {
        Error::IncompatibleDevice
    } else if code == 10 {
        Error::NoSuchClient
    } else if code == 11 {
        Error::IncompatibleBackend
    } else if code == 12 {
        Error::BackendDisconnected
    } else if code == 13 {
        Error::Interrupted
    } else if code == 14 {
        Error::Underflow
    } else if code == 15 {
        Error::EncodingString
    } else {
        Error::Unknown
    }
}

/// The transport error code of an error; `Unknown` has none and maps to -1.
pub open spec fn code_of_error(e: Error) -> i32 {
    match e {
        Error::NoMem => 1,
        Error::InitAudioBackend => 2,
        Error::SystemResources => 3,
        Error::OpeningDevice => 4,
        Error::NoSuchDevice => 5,
        Error::Invalid => 6,
        Error::BackendUnavailable => 7,
        Error::Streaming => 8,
        Error::IncompatibleDevice => 9,
        Error::NoSuchClient => 10,
        Error::IncompatibleBackend => 11,
        Error::BackendDisconnected => 12,
        Error::Interrupted => 13,
        Error::Underflow => 14,
        Error::EncodingString => 15,
        Error::Unknown => -1i32,
    }
}

impl From<i32> for Error {
    fn from(err: i32) -> Error {
        match err {
            1 => Error::NoMem,
            2 => Error::InitAudioBackend,
            3 => Error::SystemResources,
            4 => Error::OpeningDevice,
            5 => Error::NoSuchDevice,
            6 => Error::Invalid,
            7 => Error::BackendUnavailable,
            8 => Error::Streaming,
            9 => Error::IncompatibleDevice,
            10 => Error::NoSuchClient,
            11 => Error::IncompatibleBackend,
            12 => Error::BackendDisconnected,
            13 => Error::Interrupted,
            14 => Error::Underflow,
            15 => Error::EncodingString,
            _ => Error::Unknown,
        }
    }
}

impl vstd::std_specs::convert::FromSpecImpl<i32> for Error {
    open spec fn obeys_from_spec() -> bool {
        true
    }

    open spec fn from_spec(v: i32) -> Error {
        error_of_code(v)
    }
}

impl From<Error> for i32 {
    fn from(err: Error) -> i32 {
        match err {
            Error::NoMem => 1,
            Error::InitAudioBackend => 2,
            Error::SystemResources => 3,
            Error::OpeningDevice => 4,
            Error::NoSuchDevice => 5,
            Error::Invalid => 6,
            Error::BackendUnavailable => 7,
            Error::Streaming => 8,
            Error::IncompatibleDevice => 9,
            Error::NoSuchClient => 10,
            Error::IncompatibleBackend => 11,
            Error::BackendDisconnected => 12,
            Error::Interrupted => 13,
            Error::Underflow => 14,
            Error::EncodingString => 15,
            Error::Unknown => -1,
        }
    }
}

impl vstd::std_specs::convert::FromSpecImpl<Error> for i32 {
    open spec fn obeys_from_spec() -> bool {
        true
    }

    open spec fn from_spec(v: Error) -> i32 {
        code_of_error(v)
    }
}

/// Turns a transport status code into a result: 0 is success, any other code
/// the error it stands for.
pub fn from_code(code: i32) -> (r: Result<(), Error>)
    ensures
        code == 0 ==> r == Ok::<(), Error>(()),
        code != 0 ==> r == Err::<(), Error>(error_of_code(code)),
{
    if code == 0 {
        Ok(())
    } else {
        Err(Error::from(code))
    }
}

/// Every error but `Unknown` has a code that maps back to it.
pub proof fn lemma_code_round_trip(e: Error)
    requires
        e != Error::Unknown,
    ensures
        code_of_error(e) != 0,
        error_of_code(code_of_error(e)) == e,
{
}

} // verus!
