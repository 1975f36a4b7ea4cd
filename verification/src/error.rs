//! The error taxonomy of the probe layer.
//!
//! Probe failures never escape as exceptions; they are captured into a
//! [NetworkError] and carried inside the per-target outcome.

use vstd::prelude::*;
use vstd::string::StringExecFns;

verus! {

/// A classified probe failure.
#[derive(Debug, Clone)]
pub enum NetworkError {
    /// The host could not be resolved; carries the resolver's message.
    DnsResolutionError(String),
    /// The connection attempt failed; carries the socket layer's message.
    ConnectionError(String),
    /// The probe did not finish within its deadline.
    TimeoutError,
    /// A failure outside the other classes; carries its message.
    UnknownError(String),
}

impl NetworkError {
    /// The rendered form of an error, as [NetworkError::message] returns it.
    pub open spec fn spec_message(self) -> Seq<char> {
        match self {
            NetworkError::DnsResolutionError(s) => "DNS Resolution Error: "@ + s@,
            NetworkError::ConnectionError(s) => "Connection Error: "@ + s@,
            NetworkError::TimeoutError => "Timeout Error"@,
            NetworkError::UnknownError(s) => "Unknown Error: "@ + s@,
        }
    }

    /// Renders the error as one line of text.
    pub fn message(&self) -> (r: String)
        ensures
            r@ == self.spec_message(),
    {
        match self {
            NetworkError::DnsResolutionError(s) => {
                "DNS Resolution Error: ".to_owned().concat(s.as_str())
            },
            NetworkError::ConnectionError(s) => {
                "Connection Error: ".to_owned().concat(s.as_str())
            },
            NetworkError::TimeoutError => "Timeout Error".to_owned(),
            NetworkError::UnknownError(s) => "Unknown Error: ".to_owned().concat(s.as_str()),
        }
    }
}

#[verifier::external_type_specification]
#[verifier::external_body]
pub struct ExIoError(std::io::Error);

#[verifier::external_type_specification]
#[verifier::external_body]
pub struct ExAnyhowError(anyhow::Error);

/// Relies on std::io::Error's Display implementation, for the rendered
/// message of the error.  Which text comes back is not modelled.
#[verifier::external_body]
fn io_error_text(err: &std::io::Error) -> String {
    format!("{}", err)
}

/// Relies on anyhow::Error's Display implementation, for the rendered
/// message of the outermost error.  Which text comes back is not
/// modelled.
#[verifier::external_body]
fn anyhow_error_text(err: &anyhow::Error) -> String {
    format!("{}", err)
}

impl From<std::io::Error> for NetworkError {
    /// An I/O failure is classified as a connection error, keeping its
    /// message.
    fn from(err: std::io::Error) -> (r: NetworkError)
        ensures
            r is ConnectionError,
    {
        NetworkError::ConnectionError(io_error_text(&err))
    }
}

impl vstd::std_specs::convert::FromSpecImpl<std::io::Error> for NetworkError {
    /// The text of the outside error is not modelled, so no equation is
    /// claimed about the conversion.
    open spec fn obeys_from_spec() -> bool {
        false
    }

    open spec fn from_spec(err: std::io::Error) -> NetworkError {
        NetworkError::TimeoutError
    }
}

impl From<anyhow::Error> for NetworkError {
    /// A wrapped failure of unknown class keeps its message.
    fn from(err: anyhow::Error) -> (r: NetworkError)
        ensures
            r is UnknownError,
    {
        NetworkError::UnknownError(anyhow_error_text(&err))
    }
}

impl vstd::std_specs::convert::FromSpecImpl<anyhow::Error> for NetworkError {
    /// The text of the outside error is not modelled, so no equation is
    /// claimed about the conversion.
    open spec fn obeys_from_spec() -> bool {
        false
    }

    open spec fn from_spec(err: anyhow::Error) -> NetworkError {
        NetworkError::TimeoutError
    }
}

} // verus!
