use vstd::prelude::*;

verus! {

/// Declares url's `ParseError` type so that a value of it can be carried
/// inside [`GopherError`]; nothing about its behaviour is assumed.
#[verifier::external_type_specification]
#[verifier::external_body]
pub struct ExParseError(url::ParseError);

/// Everything that endpoint resolution or connection set-up can fail with.
///
/// The first two variants and [`GopherError::UrlParseError`] are produced by
/// [`crate::Gopher::new`]; the remaining three describe socket and TLS
/// failures and carry the lower-level diagnostic as text.
#[derive(Debug)]
pub enum GopherError {
    /// The endpoint parsed as a URL but carries no host component.
    InvalidHost,
    /// The endpoint's scheme is neither `gopher` nor `gophers`.
    UnsupportedProtocol,
    /// The TLS handshake failed after the socket had connected.
    HandshakeError(String),
    /// The TLS subsystem itself could not be initialised.
    TlsError(String),
    /// A socket-level failure while connecting, reading or writing.
    IoError(String),
    /// The endpoint is not a syntactically valid URL; carries the
    /// parser's own diagnostic.
    UrlParseError(url::ParseError),
}

} // verus!
