//! Error taxonomy of the relay.
//!
//! Errors are values, never control-flow signals across a thread boundary:
//! they travel either through a subscription's one-shot reply or as an error
//! relay event.  The taxonomy is a closed set with four classes: transport
//! (connection failures), protocol (responses the client could not make sense
//! of), business (failures the exchange reported for a valid request), and
//! host boundary (failures attaching to or reaching the host runtime).

use vstd::prelude::*;

verus! {

/// The closed set of error kinds a caller or the callback sink can observe.
#[derive(Clone, Copy, PartialEq, Eq, Debug)]
pub enum ErrorKind {
    /// Transport: a socket or connection failure.
    Socket,
    /// Protocol: the client received a response it could not parse.
    NotParsableResponse,
    /// Protocol: the client received a response it did not recognize.
    UnknownResponse,
    /// Protocol: a response lacked a required parameter.
    MissingParameter,
    /// Business: the requested market symbol does not exist.
    SymbolNotFound,
    /// Business: the requested asset does not exist.
    AssetNotFound,
    /// Business: the request was not authorized.
    Unauthorized,
    /// Business: the exchange rejected the request for exceeding a rate limit.
    RateLimited,
    /// Business: the exchange reported an internal error.
    InternalServerError,
    /// Business: the exchange's service is unavailable.
    ServiceUnavailable,
    /// Host boundary: a command or reply channel whose peer has terminated.
    QueueClosed,
    /// Host boundary: attaching a worker to the host runtime failed.
    HostAttachFailed,
}

/// The four classes of the taxonomy.
#[derive(Clone, Copy, PartialEq, Eq, Debug)]
pub enum ErrorClass {
    Transport,
    Protocol,
    Business,
    HostBoundary,
}

/// The class an error kind belongs to.
pub open spec fn spec_error_class(k: ErrorKind) -> ErrorClass {
    match k {
        ErrorKind::Socket => ErrorClass::Transport,
        ErrorKind::NotParsableResponse => ErrorClass::Protocol,
        ErrorKind::UnknownResponse => ErrorClass::Protocol,
        ErrorKind::MissingParameter => ErrorClass::Protocol,
        ErrorKind::SymbolNotFound => ErrorClass::Business,
        ErrorKind::AssetNotFound => ErrorClass::Business,
        ErrorKind::Unauthorized => ErrorClass::Business,
        ErrorKind::RateLimited => ErrorClass::Business,
        ErrorKind::InternalServerError => ErrorClass::Business,
        ErrorKind::ServiceUnavailable => ErrorClass::Business,
        ErrorKind::QueueClosed => ErrorClass::HostBoundary,
        ErrorKind::HostAttachFailed => ErrorClass::HostBoundary,
    }
}

/// Classifies an error kind into its taxonomy class.
pub fn error_class(k: ErrorKind) -> (c: ErrorClass)
    ensures
        c == spec_error_class(k),
{
    match k {
        ErrorKind::Socket => ErrorClass::Transport,
        ErrorKind::NotParsableResponse => ErrorClass::Protocol,
        ErrorKind::UnknownResponse => ErrorClass::Protocol,
        ErrorKind::MissingParameter => ErrorClass::Protocol,
        ErrorKind::SymbolNotFound => ErrorClass::Business,
        ErrorKind::AssetNotFound => ErrorClass::Business,
        ErrorKind::Unauthorized => ErrorClass::Business,
        ErrorKind::RateLimited => ErrorClass::Business,
        ErrorKind::InternalServerError => ErrorClass::Business,
        ErrorKind::ServiceUnavailable => ErrorClass::Business,
        ErrorKind::QueueClosed => ErrorClass::HostBoundary,
        ErrorKind::HostAttachFailed => ErrorClass::HostBoundary,
    }
}

/// A failure as the market-data client surfaces it.  The client's own error
/// set is wider than the relay's taxonomy; the variants the relay passes
/// through unchanged are listed, and everything else arrives as `Other`.
#[derive(Clone, Copy, PartialEq, Eq, Debug)]
pub enum ClientError {
    Socket,
    NotParsableResponse,
    UnknownResponse,
    MissingParameter,
    SymbolNotFound,
    AssetNotFound,
    Unauthorized,
    RateLimited,
    InternalServerError,
    ServiceUnavailable,
    /// The connection is gone for good: the client cannot deliver anything
    /// further.  Forwarded as the terminal disconnect rather than as an
    /// error.
    HardDisconnect,
    /// Any client failure outside the relay's taxonomy.
    Other,
}

/// The taxonomy member a client failure is mapped to.  Failures the taxonomy
/// names keep their identity; anything else counts as a transport failure,
/// the closest member for a stream that stopped making sense.
pub open spec fn spec_normalize_error(e: ClientError) -> ErrorKind {
    match e {
        ClientError::Socket => ErrorKind::Socket,
        ClientError::NotParsableResponse => ErrorKind::NotParsableResponse,
        ClientError::UnknownResponse => ErrorKind::UnknownResponse,
        ClientError::MissingParameter => ErrorKind::MissingParameter,
        ClientError::SymbolNotFound => ErrorKind::SymbolNotFound,
        ClientError::AssetNotFound => ErrorKind::AssetNotFound,
        ClientError::Unauthorized => ErrorKind::Unauthorized,
        ClientError::RateLimited => ErrorKind::RateLimited,
        ClientError::InternalServerError => ErrorKind::InternalServerError,
        ClientError::ServiceUnavailable => ErrorKind::ServiceUnavailable,
        ClientError::HardDisconnect => ErrorKind::Socket,
        ClientError::Other => ErrorKind::Socket,
    }
}

/// Maps a client failure to the closest taxonomy member.
pub fn normalize_error(e: ClientError) -> (k: ErrorKind)
    ensures
        k == spec_normalize_error(e),
{
    match e {
        ClientError::Socket => ErrorKind::Socket,
        ClientError::NotParsableResponse => ErrorKind::NotParsableResponse,
        ClientError::UnknownResponse => ErrorKind::UnknownResponse,
        ClientError::MissingParameter => ErrorKind::MissingParameter,
        ClientError::SymbolNotFound => ErrorKind::SymbolNotFound,
        ClientError::AssetNotFound => ErrorKind::AssetNotFound,
        ClientError::Unauthorized => ErrorKind::Unauthorized,
        ClientError::RateLimited => ErrorKind::RateLimited,
        ClientError::InternalServerError => ErrorKind::InternalServerError,
        ClientError::ServiceUnavailable => ErrorKind::ServiceUnavailable,
        ClientError::HardDisconnect => ErrorKind::Socket,
        ClientError::Other => ErrorKind::Socket,
    }
}

/// The name of an error kind, for the host-visible error object.
pub fn error_name(k: ErrorKind) -> (name: &'static str)
    ensures
        k == ErrorKind::Socket ==> name@ == "SocketError"@,
        k == ErrorKind::NotParsableResponse ==> name@ == "NotParsableResponse"@,
        k == ErrorKind::UnknownResponse ==> name@ == "UnknownResponse"@,
        k == ErrorKind::MissingParameter ==> name@ == "MissingParameter"@,
        k == ErrorKind::SymbolNotFound ==> name@ == "SymbolNotFound"@,
        k == ErrorKind::AssetNotFound ==> name@ == "AssetNotFound"@,
        k == ErrorKind::Unauthorized ==> name@ == "Unauthorized"@,
        k == ErrorKind::RateLimited ==> name@ == "RateLimited"@,
        k == ErrorKind::InternalServerError ==> name@ == "InternalServerError"@,
        k == ErrorKind::ServiceUnavailable ==> name@ == "ServiceUnavailable"@,
        k == ErrorKind::QueueClosed ==> name@ == "QueueClosed"@,
        k == ErrorKind::HostAttachFailed ==> name@ == "HostAttachFailed"@,
{
    match k {
        ErrorKind::Socket => "SocketError",
        ErrorKind::NotParsableResponse => "NotParsableResponse",
        ErrorKind::UnknownResponse => "UnknownResponse",
        ErrorKind::MissingParameter => "MissingParameter",
        ErrorKind::SymbolNotFound => "SymbolNotFound",
        ErrorKind::AssetNotFound => "AssetNotFound",
        ErrorKind::Unauthorized => "Unauthorized",
        ErrorKind::RateLimited => "RateLimited",
        ErrorKind::InternalServerError => "InternalServerError",
        ErrorKind::ServiceUnavailable => "ServiceUnavailable",
        ErrorKind::QueueClosed => "QueueClosed",
        ErrorKind::HostAttachFailed => "HostAttachFailed",
    }
}

/// Normalization never leaves the taxonomy, and never invents a disconnect:
/// every client failure maps to a transport, protocol or business member,
/// never to a host-boundary one.
pub proof fn lemma_normalize_stays_in_stream_classes(e: ClientError)
    ensures
        spec_error_class(spec_normalize_error(e)) != ErrorClass::HostBoundary,
{
}

} // verus!
