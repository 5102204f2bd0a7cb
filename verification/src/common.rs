//! The answers of the two catchers: what a client is told when a request is
//! malformed or not authorised.

use vstd::prelude::*;
use vstd::string::*;

verus! {

/// Error messages returned to the user.
#[derive(Debug, PartialEq, Eq)]
pub struct MyError {
    /// The title of the error message.
    pub err: String,
    /// The description of the error.
    pub msg: Option<String>,
    /// The HTTP status code returned; not part of the body.
    pub http_status_code: u16,
}

/// An error message as plain mathematical values.
pub struct MyErrorModel {
    pub err: Seq<char>,
    pub msg: Option<Seq<char>>,
    pub http_status_code: u16,
}

impl View for MyError {
    type V = MyErrorModel;

    open spec fn view(&self) -> MyErrorModel {
        MyErrorModel {
            err: self.err@,
            msg: match self.msg {
                Some(m) => Some(m@),
                None => None,
            },
            http_status_code: self.http_status_code,
        }
    }
}

/// The answer to a request that is wrongly formatted: status 400.
pub fn bad_request() -> (r: MyError)
    ensures
        r@ == (MyErrorModel {
            err: "Bad Request"@,
            msg: Some("The request given is wrongly formatted or data was missing."@),
            http_status_code: 400,
        }),
{
    MyError {
        err: String::from_str("Bad Request"),
        msg: Some(String::from_str("The request given is wrongly formatted or data was missing.")),
        http_status_code: 400,
    }
}

/// The answer to a request whose authentication is wrong or missing:
/// status 401.
pub fn unauthorized() -> (r: MyError)
    ensures
        r@ == (MyErrorModel {
            err: "Unauthorized"@,
            msg: Some("The authentication given was incorrect or insufficient."@),
            http_status_code: 401,
        }),
{
    MyError {
        err: String::from_str("Unauthorized"),
        msg: Some(String::from_str("The authentication given was incorrect or insufficient.")),
        http_status_code: 401,
    }
}

} // verus!
