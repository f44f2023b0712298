//! The error kinds a run can end with, their messages, and the mapping from
//! an HTTP status code to the outcome of the events request.

use vstd::prelude::*;

verus! {

/// Everything that can end a run before any event line is printed. Each
/// variant is terminal for the single request the process makes.
pub enum ApiError {
    /// The username does not match the provider's grammar; carries the
    /// offending string.
    InvalidUsername(String),
    /// No API token was found in the environment.
    MissingToken,
    /// The events endpoint answered 404; carries the username.
    NotFound(String),
    /// The endpoint answered with a server error (status 500 to 599).
    ServerError,
    /// The response body was not the expected JSON.
    DecodeError,
    /// The request itself failed in transport.
    NetworkError,
}

impl ApiError {
    /// The message this error prints.
    pub open spec fn spec_message(&self) -> Seq<char> {
        match self {
            ApiError::InvalidUsername(u) => u@ + " is an invalid GitHub username"@,
            ApiError::MissingToken => "Error fetching TOKEN"@,
            ApiError::NotFound(u) => "Username "@ + u@ + " Not Found"@,
            ApiError::ServerError => "Server Error"@,
            ApiError::DecodeError => "Error decoding response"@,
            ApiError::NetworkError => "Network Error"@,
        }
    }

    /// Renders the message this error prints.
    pub fn message(&self) -> (r: String)
        ensures
            r@ == self.spec_message(),
    {
        match self {
            ApiError::InvalidUsername(u) => String::from_str(u.as_str()).concat(
                " is an invalid GitHub username",
            ),
            ApiError::MissingToken => String::from_str("Error fetching TOKEN"),
            ApiError::NotFound(u) => String::from_str("Username ").concat(u.as_str()).concat(
                " Not Found",
            ),
            ApiError::ServerError => String::from_str("Server Error"),
            ApiError::DecodeError => String::from_str("Error decoding response"),
            ApiError::NetworkError => String::from_str("Network Error"),
        }
    }
}

/// Decides from the HTTP status of the events request whether the run goes
/// on: 404 means the user does not exist, 500 to 599 a server failure, and
/// any other status lets decoding proceed.
pub fn classify_status(status: u16, user_name: &str) -> (r: Result<(), ApiError>)
    ensures
        r is Ok <==> (status != 404 && !(500 <= status < 600)),
        status == 404 ==> (r matches Err(ApiError::NotFound(u)) && u@ == user_name@),
        500 <= status < 600 ==> (r matches Err(e) && e is ServerError),
{
    if status == 404 {
        Err(ApiError::NotFound(user_name.to_owned()))
    } else if 500 <= status && status < 600 {
        Err(ApiError::ServerError)
    } else {
        Ok(())
    }
}

} // verus!
