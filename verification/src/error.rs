//! The ways in which a request to the limiter can fail.

use vstd::prelude::*;

verus! {

/// Why a request to the limiter failed.
#[derive(Copy, Clone, Debug, PartialEq, Eq, Structural)]
pub enum Error {
    /// The Limtr was not initialized.
    NotInitialized,
    /// The Limtr was already initialized once.
    AlreadyInitialized,
    /// The Limtr communication was closed unexpectedly.
    LimtrClosed,
    /// Callback sender was closed and will not send any value.
    CallbackCanceled,
}

impl Error {
    /// The name of the error, as it is shown to a reader.
    pub open spec fn name(self) -> Seq<char> {
        match self {
            Error::NotInitialized => "NotInitialized"@,
            Error::AlreadyInitialized => "AlreadyInitialized"@,
            Error::LimtrClosed => "LimtrClosed"@,
            Error::CallbackCanceled => "CallbackCanceled"@,
        }
    }

    /// The text that shows the error: its name.
    pub fn to_string(&self) -> (text: String)
        ensures
            text@ == self.name(),
    {
        match self {
            Error::NotInitialized => "NotInitialized".to_owned(),
            Error::AlreadyInitialized => "AlreadyInitialized".to_owned(),
            Error::LimtrClosed => "LimtrClosed".to_owned(),
            Error::CallbackCanceled => "CallbackCanceled".to_owned(),
        }
    }
}

} // verus!
