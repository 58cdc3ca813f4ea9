//! Error taxonomy shared by every operation of the library.

use vstd::prelude::*;

verus! {

/// Error type that can be returned by unified.
///
/// Every layer propagates errors upward unchanged: the envelope decoder is
/// the single point translating server-reported failure into
/// [`UnifiedError::UnifiError`] / [`UnifiedError::Unknown`], and the
/// transport layer is the single point producing
/// [`UnifiedError::NetworkError`] / [`UnifiedError::HttpError`].
#[derive(Debug)]
pub enum UnifiedError {
    /// Transport failure (DNS, connect, TLS), or a response body that could
    /// not be read as the expected wire shape.
    NetworkError,
    /// Non-success HTTP status other than bad request, carrying the status
    /// code.
    HttpError(u16),
    /// The server signalled unauthorized at login.
    InvalidCredentials,
    /// Server-reported application error with a message.
    UnifiError(String),
    /// Builder validation failure, carrying the name of the missing field.
    MissingAttribute(String),
    /// Server-reported failure without a message.
    Unknown,
    /// A MAC address (selector or required wire field) could not be parsed.
    InvalidMacAddress,
    /// An IP address or subnet (selector or wire field) could not be parsed.
    InvalidIpAddress,
}

/// Mathematical model of [`UnifiedError`]: strings are abstracted to their
/// character sequences.
pub enum ErrV {
    Network,
    Http(u16),
    BadCreds,
    Unifi(Seq<char>),
    Missing(Seq<char>),
    Unknown,
    BadMac,
    BadIp,
}

impl View for UnifiedError {
    type V = ErrV;

    open spec fn view(&self) -> ErrV {
        match self {
            UnifiedError::NetworkError => ErrV::Network,
            UnifiedError::HttpError(s) => ErrV::Http(*s),
            UnifiedError::InvalidCredentials => ErrV::BadCreds,
            UnifiedError::UnifiError(m) => ErrV::Unifi(m@),
            UnifiedError::MissingAttribute(f) => ErrV::Missing(f@),
            UnifiedError::Unknown => ErrV::Unknown,
            UnifiedError::InvalidMacAddress => ErrV::BadMac,
            UnifiedError::InvalidIpAddress => ErrV::BadIp,
        }
    }
}

} // verus!
