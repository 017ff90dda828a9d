use vstd::prelude::*;

verus! {

/// The three kinds of failure that every operation of this layer reports.
#[derive(Debug)]
pub enum Error {
    /// A local fault: missing or malformed credentials, encoding or decoding
    /// failures, a filesystem failure, an unexpected response body.
    Client(String),
    /// A remote fault: transport failure or an outright rejection.
    Server(String),
    /// The refresh token is no longer usable; the user must log in again.
    LoginExpired,
}

/// What an [`Error`] holds, as mathematical values.
pub enum ErrorView {
    Client(Seq<char>),
    Server(Seq<char>),
    LoginExpired,
}

impl View for Error {
    type V = ErrorView;

    open spec fn view(&self) -> ErrorView {
        match self {
            Error::Client(d) => ErrorView::Client(d@),
            Error::Server(d) => ErrorView::Server(d@),
            Error::LoginExpired => ErrorView::LoginExpired,
        }
    }
}

impl Error {
    /// The error for a token rejected outright by the server.
    pub fn unauthorized() -> (e: Error)
        ensures
            e@ == ErrorView::Server("Unauthorized"@),
    {
        Error::Server(String::from_str("Unauthorized"))
    }

    /// Whether the only recovery is to run the login flow again.
    pub fn is_login_expired(&self) -> (r: bool)
        ensures
            r == (self@ is LoginExpired),
    {
        matches!(self, Error::LoginExpired)
    }
}

} // verus!
