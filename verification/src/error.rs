use vstd::prelude::*;

verus! {

/// The failure taxonomy of the SDK core.
#[derive(Clone, Copy, Debug, PartialEq, Eq, Structural)]
pub enum SDKError {
    /// REST authentication never succeeded.
    UnAuthenticated,
    /// A reply channel closed, timed out, or the connection dropped before a
    /// reply sequence completed.
    MangledReceive,
    /// The requested transport is forbidden for the command by the catalog
    /// and the client configuration.
    ConfigBlocked,
    /// A chunk or response payload was malformed or missing required fields.
    ImproperDataFormat,
}

impl SDKError {
    /// A human-readable description of the error.
    pub fn message(&self) -> (r: &'static str)
        ensures
            self is UnAuthenticated ==> r@ == "Failed to authenticate"@,
            self is MangledReceive ==> r@
                == "MPSC Receiver ran into an error while trying to receive"@,
            self is ConfigBlocked ==> r@
                == "This function is not allowed by the current SDK Configuration"@,
            self is ImproperDataFormat ==> r@
                == "The data json was sent in an improper format"@,
    {
        match self {
            SDKError::UnAuthenticated => "Failed to authenticate",
            SDKError::MangledReceive => {
                "MPSC Receiver ran into an error while trying to receive"
            },
            SDKError::ConfigBlocked => {
                "This function is not allowed by the current SDK Configuration"
            },
            SDKError::ImproperDataFormat => {
                "The data json was sent in an improper format"
            },
        }
    }
}

} // verus!
