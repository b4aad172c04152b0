//! How the server's answers to requests are read: status codes to outcomes.
use vstd::prelude::*;
use crate::text::{concat3, int_text, push_int_text};

verus! {

/// Why the server refused a connection check.
#[derive(Debug, Clone, Copy, PartialEq, Eq, Structural)]
pub enum ConnectionError {
    /// The credentials were refused (401 or 403).
    AuthenticationFailed,
    /// Nothing answers at that address (404).
    ServerNotFound,
    /// Any other status.
    Http(u16),
}

impl ConnectionError {
    /// The message shown to the user.
    pub fn to_string(&self) -> (r: String)
        ensures
            *self == ConnectionError::AuthenticationFailed ==> r@
                == "Authentication failed. Please check your username and API token."@,
            *self == ConnectionError::ServerNotFound ==> r@
                == "Jenkins server not found. Please check the URL."@,
            self matches ConnectionError::Http(code) ==> r@
                == "Failed to connect to Jenkins: HTTP "@ + int_text(code as int),
    {
        match self {
            ConnectionError::AuthenticationFailed => String::from_str(
                "Authentication failed. Please check your username and API token.",
            ),
            ConnectionError::ServerNotFound => String::from_str(
                "Jenkins server not found. Please check the URL.",
            ),
            ConnectionError::Http(code) => {
                let mut r = String::from_str("Failed to connect to Jenkins: HTTP ");
                push_int_text(&mut r, *code as i32);
                r
            },
        }
    }
}

/// The outcome of a connection check with HTTP status `status`.
pub open spec fn connection_outcome(status: u16) -> Result<(), ConnectionError> {
    if status == 200 {
        Ok(())
    } else if status == 401 || status == 403 {
        Err(ConnectionError::AuthenticationFailed)
    } else if status == 404 {
        Err(ConnectionError::ServerNotFound)
    } else {
        Err(ConnectionError::Http(status))
    }
}

/// Reads the status of a connection check: only 200 is success.
pub fn connection_status(status: u16) -> (r: Result<(), ConnectionError>)
    ensures
        r == connection_outcome(status),
{
    if status == 200 {
        Ok(())
    } else if status == 401 || status == 403 {
        Err(ConnectionError::AuthenticationFailed)
    } else if status == 404 {
        Err(ConnectionError::ServerNotFound)
    } else {
        Err(ConnectionError::Http(status))
    }
}

/// Why a request for a job or build failed.
#[derive(Debug, Clone, PartialEq)]
pub enum RequestError {
    /// The job does not exist.
    JobNotFound(String),
    /// The server answered with another failing status.
    Status(u16),
}

impl RequestError {
    /// The message shown to the user.
    pub fn to_string(&self) -> (r: String)
        ensures
            match self {
                RequestError::JobNotFound(j) => r@ == "Job '"@ + j@ + "' not found"@,
                RequestError::Status(code) => r@ == "Request failed: HTTP "@ + int_text(
                    *code as int,
                ),
            },
    {
        match self {
            RequestError::JobNotFound(j) => concat3("Job '", j.as_str(), "' not found"),
            RequestError::Status(code) => {
                let mut r = String::from_str("Request failed: HTTP ");
                push_int_text(&mut r, *code as i32);
                r
            },
        }
    }
}

/// The status is a success (2xx).
pub open spec fn is_success(status: u16) -> bool {
    200 <= status < 300
}

/// Reads the status of a request for the job `job_name`: 404 means the job
/// does not exist, any other status outside 2xx is a failure.
pub fn job_response_status(status: u16, job_name: &str) -> (r: Result<(), RequestError>)
    ensures
        is_success(status) ==> r is Ok,
        status == 404 ==> (r matches Err(RequestError::JobNotFound(j)) && j@ == job_name@),
        !is_success(status) && status != 404 ==> r == Err::<(), RequestError>(
            RequestError::Status(status)),
{
    if 200 <= status && status < 300 {
        Ok(())
    } else if status == 404 {
        Err(RequestError::JobNotFound(String::from_str(job_name)))
    } else {
        Err(RequestError::Status(status))
    }
}

/// Reads the status of any other request: only 2xx is success.
pub fn response_status(status: u16) -> (r: Result<(), RequestError>)
    ensures
        is_success(status) ==> r is Ok,
        !is_success(status) ==> r == Err::<(), RequestError>(RequestError::Status(status)),
{
    if 200 <= status && status < 300 {
        Ok(())
    } else {
        Err(RequestError::Status(status))
    }
}

} // verus!
