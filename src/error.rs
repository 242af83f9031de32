use vstd::prelude::*;

verus! {

/// The failures that the device operations report to their caller.
#[derive(Debug, Clone, Copy, PartialEq, Eq, Structural)]
pub enum Error {
    /// A native call answered with a non-zero status.
    Protocol(i32),
    /// The device reports that it is no longer paired with this host.
    PairingLost,
    /// The device refused to validate the pairing record.
    PairingInvalid,
    /// A native value of a type that has no decoding.
    UnknownValueType,
    /// A property was present but decoded to another kind of value than expected.
    UnexpectedValue,
    /// A property that the operation needs was absent.
    MissingValue,
    /// No support directory matches the device's OS version.
    NoMatchingSupportImage,
    /// The mount request failed with this native status.
    MountFailed(i32),
    /// No installed application has the requested bundle identifier.
    AppNotInstalled,
    /// The installed application's path attribute is not a string.
    MalformedAppInfo,
    /// A file or socket operation failed.
    Io,
    /// The host's tool configuration could not be read.
    Configuration,
}

/// Turns a native status into a result: zero is success, anything else a
/// protocol error carrying the status.
pub fn mk_result(rv: i32) -> (r: Result<(), Error>)
    ensures
        rv == 0 ==> r == Ok::<(), Error>(()),
        rv != 0 ==> r == Err::<(), Error>(Error::Protocol(rv)),
{
    if rv != 0 {
        Err(Error::Protocol(rv))
    } else {
        Ok(())
    }
}

} // verus!
