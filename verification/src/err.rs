use vstd::prelude::*;

verus! {

/// Error taxonomy of the driver.
///
/// The first group mirrors the fixed platform status codes that a remote
/// agent may put in the status word of a reply (`NotSupported` through
/// `ProtocolError`).  The second group are local conditions: the sequence
/// token space is exhausted, the mailbox channel is not free, a reply is too
/// short for its decoder, the trigger mechanism itself failed, or a request
/// payload does not fit the mailbox.  Keeping the groups in one enum lets a
/// caller distinguish a remote protocol error from a local transport error
/// and decide whether a retry makes sense.
#[derive(Clone, Copy, Debug, PartialEq, Eq, Structural)]
pub enum ScmiError {
    NotSupported,
    InvalidParameters,
    Denied,
    NotFound,
    OutOfRange,
    Busy,
    CommsError,
    GenericError,
    HardwareError,
    ProtocolError,
    TokenExhausted,
    ChannelBusy,
    ReplyTooShort,
    TransportFailure,
    Oversize,
}

/// The fixed mapping from a platform status code to a typed outcome:
/// `0` is success, the small negative codes map each to their own kind,
/// and every other non-zero code is reported as a generic platform error.
pub open spec fn spec_status_result(code: int) -> Result<(), ScmiError> {
    if code == 0 {
        Ok(())
    } else if code == -1 {
        Err(ScmiError::NotSupported)
    } else if code == -2 {
        Err(ScmiError::InvalidParameters)
    } else if code == -3 {
        Err(ScmiError::Denied)
    } else if code == -4 {
        Err(ScmiError::NotFound)
    } else if code == -5 {
        Err(ScmiError::OutOfRange)
    } else if code == -6 {
        Err(ScmiError::Busy)
    } else if code == -7 {
        Err(ScmiError::CommsError)
    } else if code == -8 {
        Err(ScmiError::GenericError)
    } else if code == -9 {
        Err(ScmiError::HardwareError)
    } else if code == -10 {
        Err(ScmiError::ProtocolError)
    } else {
        Err(ScmiError::GenericError)
    }
}

impl ScmiError {
    /// Maps a reply status code to the typed outcome of the exchange.
    pub fn from_status(code: i32) -> (r: Result<(), ScmiError>)
        ensures
            r == spec_status_result(code as int),
    {
        if code == 0 {
            Ok(())
        } else if code == -1 {
            Err(ScmiError::NotSupported)
        } else if code == -2 {
            Err(ScmiError::InvalidParameters)
        } else if code == -3 {
            Err(ScmiError::Denied)
        } else if code == -4 {
            Err(ScmiError::NotFound)
        } else if code == -5 {
            Err(ScmiError::OutOfRange)
        } else if code == -6 {
            Err(ScmiError::Busy)
        } else if code == -7 {
            Err(ScmiError::CommsError)
        } else if code == -8 {
            Err(ScmiError::GenericError)
        } else if code == -9 {
            Err(ScmiError::HardwareError)
        } else if code == -10 {
            Err(ScmiError::ProtocolError)
        } else {
            Err(ScmiError::GenericError)
        }
    }
}

} // verus!
