use vstd::prelude::*;

verus! {

/// What can end a login attempt.
#[derive(Debug, Clone, PartialEq, Eq)]
pub enum PinterestLoginError {
    /// The browser driver failed (launch, navigation, protocol, timeout); holds its message.
    CdpError(String),
    /// The driver refused the session configuration; holds its message unchanged.
    BrowserConfigBuildError(String),
    /// The credentials were rejected: no URL after submitting, or still the login URL.
    AuthenticationError,
}

} // verus!
verus! {

/// What can go wrong between a login and a ready client.
#[derive(Debug)]
pub enum PinterestError {
    /// The browser login failed.
    LoginError(PinterestLoginError),
    /// The cookies of a login lack the CSRF token cookie.
    MissingCrfToken,
    /// Reading or writing the credentials file failed; holds the message.
    IoError(String),
    /// The credentials file does not hold a cookie mapping.
    InvalidCredentialsFile,
    /// The credentials file path does not exist.
    CredPathNotExists,
    /// Building the HTTP client or sending a request failed; holds the message.
    RequestError(String),
    /// Encoding or decoding JSON failed; holds the message.
    ResponseError(String),
}

} // verus!
