//! What a request over HTTP needs before it is sent, and what its answer
//! means once it is back.
//!
//! Sending is not done here.  A request is turned into an address and an
//! `Authorization` header; the status and the body that come back are
//! turned into a result.

use crate::correlation::{decimal_string, decimal_text};
use vstd::prelude::*;
use vstd::string::*;
use vstd::utf8::encode_utf8;

verus! {

/// How a request proves who sends it.
#[derive(Debug, Clone, PartialEq)]
pub enum Authentication {
    Basic { username: String, password: String },
    Bearer { token: String },
}

/// The HTTP method of a request.
#[derive(Debug, Clone, Copy, PartialEq, Eq)]
pub enum Method {
    Post,
    Put,
    Get,
    Delete,
}

/// A request to the server's HTTP interface.
#[derive(Debug, Clone, PartialEq)]
pub struct RestRequest {
    pub authentication: Authentication,
    pub urlpath: String,
    pub query_params: String,
    pub body: String,
    pub method: Method,
}

/// Why a request gave no result.
#[derive(Debug, Clone, PartialEq)]
pub enum RestHttpError {
    /// The request could not be made or sent; the text says why.
    HttpError(String),
    /// The answer could not be read; the text says why.
    IoError(String),
    /// The answer's body is not what was asked for; the text says why.
    JsonError(String),
    /// The server blames the request: a status from 400 to 499, and the body.
    ClientError(u16, String),
    /// The server blames itself: a status of 500 or more, and the body.
    ServerError(u16, String),
    /// Anything else; the text says what.
    OtherError(String),
}

/// The base64 text of `bytes`, in the standard alphabet with padding.
pub uninterp spec fn base64_text(bytes: Seq<u8>) -> Seq<char>;

/// Whether `base64::encode` can size its output for an input of `len`
/// bytes.
pub open spec fn base64_fits(len: nat) -> bool {
    len / 3 * 4 + 4 <= usize::MAX
}

/// `base64::encode` on the bytes of `text`: the result is the base64 text
/// of those bytes.  The encoder panics when the size of its output does
/// not fit in a `usize`, so such inputs are kept out.
#[verifier::external_body]
fn base64_encode(text: &str) -> (encoded: String)
    requires
        base64_fits(text.spec_bytes().len()),
    ensures
        encoded@ == base64_text(text.spec_bytes()),
{
    base64::encode(text)
}

/// The text of an `Authorization` header for basic credentials, before
/// encoding: the name, a colon, the password.
pub open spec fn credentials(username: Seq<char>, password: Seq<char>) -> Seq<char> {
    username + seq![':'] + password
}

/// The value of the `Authorization` header for `authentication`: for
/// basic authentication the base64 text of the credentials in UTF-8, for
/// bearer authentication the token.
pub open spec fn authorization_spec(authentication: Authentication) -> Seq<char> {
    match authentication {
        Authentication::Basic { username, password } => "Basic "@ + base64_text(
            encode_utf8(credentials(username@, password@)),
        ),
        Authentication::Bearer { token } => "Bearer "@ + token@,
    }
}

/// Whether the `Authorization` header for `authentication` can be made:
/// always for a bearer token, and for basic credentials unless they are
/// too long to be encoded.
pub open spec fn authorization_fits(authentication: Authentication) -> bool {
    match authentication {
        Authentication::Basic { username, password } => base64_fits(
            encode_utf8(credentials(username@, password@)).len(),
        ),
        Authentication::Bearer { .. } => true,
    }
}

/// The value of the `Authorization` header for `authentication`, or
/// `None` if it cannot be made.
pub fn authorization_header(authentication: &Authentication) -> (header: Option<String>)
    ensures
        header is Some <==> authorization_fits(*authentication),
        header matches Some(h) ==> h@ == authorization_spec(*authentication),
{
    match authentication {
        Authentication::Basic { username, password } => {
            proof {
                reveal_strlit(":");
            }
            let mut joined = String::new();
            joined.append(username.as_str());
            joined.append(":");
            joined.append(password.as_str());
            assert(joined@ =~= credentials(username@, password@));
            let joined_text: &str = joined.as_str();
            let length: usize = joined_text.as_bytes().len();
            if length / 3 <= (usize::MAX - 4) / 4 {
                let mut header = String::from_str("Basic ");
                let encoded = base64_encode(joined_text);
                header.append(encoded.as_str());
                Some(header)
            } else {
                None
            }
        },
        Authentication::Bearer { token } => {
            let mut header = String::from_str("Bearer ");
            header.append(token.as_str());
            Some(header)
        },
    }
}

/// The address of a request: the server, a colon, the port, the path, a
/// question mark, the query.
pub open spec fn url_spec(
    server: Seq<char>,
    port: i32,
    urlpath: Seq<char>,
    query_params: Seq<char>,
) -> Seq<char> {
    server + seq![':'] + decimal_text(port as int) + urlpath + seq!['?'] + query_params
}

/// Reads the answer to a request.
///
/// A status from 200 to 299 gives the body, to be parsed by the caller.
/// A status from 400 to 499 is the client's error, one of 500 or more the
/// server's, each with the status and the body.  Any other status is an
/// error with the text `Unknown status`.
pub fn check_response(status: u16, body: String) -> (result: Result<String, RestHttpError>)
    ensures
        match result {
            Ok(text) => 200 <= status < 300 && text == body,
            Err(RestHttpError::ClientError(code, text)) => 400 <= status < 500 && code == status
                && text == body,
            Err(RestHttpError::ServerError(code, text)) => status >= 500 && code == status && text
                == body,
            Err(RestHttpError::OtherError(text)) => (status < 200 || 300 <= status < 400) && text@
                == "Unknown status"@,
            Err(_) => false,
        },
{
    if status >= 200 && status < 300 {
        Ok(body)
    } else if status >= 400 && status < 500 {
        Err(RestHttpError::ClientError(status, body))
    } else if status >= 500 {
        Err(RestHttpError::ServerError(status, body))
    } else {
        Err(RestHttpError::OtherError("Unknown status".to_owned()))
    }
}

/// Where the server's HTTP interface is.
#[derive(Debug, Clone, PartialEq)]
pub struct RestHttpAdapter {
    server: String,
    port: i32,
}

impl RestHttpAdapter {
    /// The server's address without the port, such as `http://127.0.0.1`.
    pub closed spec fn server(&self) -> Seq<char> {
        self.server@
    }

    /// The server's port.
    pub closed spec fn port(&self) -> i32 {
        self.port
    }

    /// An adapter for the server at `server`, on `port`.
    pub fn new(server: &str, port: i32) -> (adapter: RestHttpAdapter)
        ensures
            adapter.server() == server@,
            adapter.port() == port,
    {
        RestHttpAdapter { server: server.to_owned(), port }
    }

    /// The address to send `request` to.
    pub fn url(&self, request: &RestRequest) -> (url: String)
        ensures
            url@ == url_spec(
                self.server(),
                self.port(),
                request.urlpath@,
                request.query_params@,
            ),
    {
        proof {
            reveal_strlit(":");
            reveal_strlit("?");
        }
        let mut url = String::new();
        url.append(self.server.as_str());
        url.append(":");
        let port = decimal_string(self.port as i64);
        url.append(port.as_str());
        url.append(request.urlpath.as_str());
        url.append("?");
        url.append(request.query_params.as_str());
        assert(url@ =~= url_spec(
            self.server(),
            self.port(),
            request.urlpath@,
            request.query_params@,
        ));
        url
    }
}

} // verus!
