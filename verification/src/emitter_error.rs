use vstd::prelude::*;
use vstd::std_specs::convert::FromSpecImpl;

use crate::event_error::EventError;

verus! {

/// Error returned from [`Emitter`] methods.
///
/// [`Emitter`]: struct.Emitter.html
#[derive(Debug)]
pub enum EmitterError {
    /// I/O error.
    IoError(std::io::Error),
    /// LibYAML error.
    LibYamlError,
}

impl From<EventError> for EmitterError {
    fn from(_e: EventError) -> (error: Self) {
        Self::LibYamlError
    }
}

impl FromSpecImpl<EventError> for EmitterError {
    open spec fn obeys_from_spec() -> bool {
        true
    }

    open spec fn from_spec(_e: EventError) -> Self {
        EmitterError::LibYamlError
    }
}

impl EmitterError {
    /// The message of the error.
    pub fn to_string(&self) -> (message: String)
        ensures
            message@ == "YAML emitter error"@,
    {
        "YAML emitter error".to_owned()
    }

    /// The I/O error that caused this error, if one did.
    pub fn source(&self) -> (source: Option<&std::io::Error>)
        ensures
            match *self {
                EmitterError::IoError(io_error) => source == Some(&io_error),
                EmitterError::LibYamlError => source is None,
            },
    {
        match self {
            Self::IoError(io_error) => Some(io_error),
            Self::LibYamlError => None,
        }
    }
}

} // verus!
