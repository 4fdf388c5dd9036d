//! Typed errors for `/cli/v1` responses: how an HTTP status and error body
//! become an [`ApiError`], its message, and the exit code it ends `nvg` with.

use vstd::prelude::*;
use crate::cli::opt_str;
use crate::json::{nested_str, nested_string, top_str, top_string};
use crate::text::{decimal, fmt_u16};

verus! {

pub enum ApiError {
    /// 401: the token is missing, expired or revoked.
    Unauthorized,
    /// 402: the server's message and, when it sent one, the checkout URL.
    PaymentRequired { message: String, checkout_url: Option<String> },
    /// 403.
    Forbidden,
    /// 404: what was not found.
    NotFound(String),
    /// 422: the server's validation message.
    Unprocessable(String),
    /// 5xx: the status code.
    Server(u16),
    /// The server at `url` (the profile's API URL) could not be reached, and
    /// why.
    Network { url: String, reason: String },
    /// Any other failure.
    Unexpected(String),
}

pub enum ApiErrorView {
    Unauthorized,
    PaymentRequired { message: Seq<char>, checkout_url: Option<Seq<char>> },
    Forbidden,
    NotFound(Seq<char>),
    Unprocessable(Seq<char>),
    Server(u16),
    Network { url: Seq<char>, reason: Seq<char> },
    Unexpected(Seq<char>),
}

impl View for ApiError {
    type V = ApiErrorView;

    open spec fn view(&self) -> ApiErrorView {
        match self {
            ApiError::Unauthorized => ApiErrorView::Unauthorized,
            ApiError::PaymentRequired { message, checkout_url } => ApiErrorView::PaymentRequired {
                message: message@,
                checkout_url: opt_str(*checkout_url),
            },
            ApiError::Forbidden => ApiErrorView::Forbidden,
            ApiError::NotFound(s) => ApiErrorView::NotFound(s@),
            ApiError::Unprocessable(s) => ApiErrorView::Unprocessable(s@),
            ApiError::Server(c) => ApiErrorView::Server(*c),
            ApiError::Network { url, reason } => ApiErrorView::Network {
                url: url@,
                reason: reason@,
            },
            ApiError::Unexpected(s) => ApiErrorView::Unexpected(s@),
        }
    }
}

pub open spec fn is_success(status: u16) -> bool {
    200 <= status <= 299
}

pub open spec fn is_server_error(status: u16) -> bool {
    500 <= status <= 599
}

pub open spec fn or_empty(s: Option<Seq<char>>) -> Seq<char> {
    match s {
        Some(t) => t,
        None => Seq::empty(),
    }
}

/// The error for a failed response with `status`, given the body's
/// `error.message`, `error.code` and `checkout_url` strings (empty when absent).
pub open spec fn status_error(
    status: u16,
    message: Seq<char>,
    code: Seq<char>,
    checkout_url: Option<Seq<char>>,
) -> ApiErrorView {
    if status == 401 {
        ApiErrorView::Unauthorized
    } else if status == 402 {
        ApiErrorView::PaymentRequired { message, checkout_url }
    } else if status == 403 {
        ApiErrorView::Forbidden
    } else if status == 404 {
        ApiErrorView::NotFound(
            if message.len() == 0 {
                code
            } else {
                message
            },
        )
    } else if status == 422 {
        ApiErrorView::Unprocessable(message)
    } else if is_server_error(status) {
        ApiErrorView::Server(status)
    } else {
        ApiErrorView::Unexpected("HTTP "@ + decimal(status as nat) + " "@ + message)
    }
}

/// The error for a failed response with `status` and body `body`.
pub open spec fn response_error(status: u16, body: Seq<char>) -> ApiErrorView {
    status_error(
        status,
        or_empty(nested_string(body, "error"@, "message"@)),
        or_empty(nested_string(body, "error"@, "code"@)),
        top_string(body, "checkout_url"@),
    )
}

/// The message `nvg` prints for an error.
pub open spec fn message_spec(e: ApiErrorView) -> Seq<char> {
    match e {
        ApiErrorView::Unauthorized => "not authenticated. Run `nvg auth login`."@,
        ApiErrorView::PaymentRequired { message, checkout_url } => match checkout_url {
            Some(u) => if message.len() == 0 {
                "payment required: "@ + u
            } else {
                "payment required: "@ + message + " (checkout: "@ + u + ")"@
            },
            None => "payment required: "@ + message,
        },
        ApiErrorView::Forbidden => "not authorized for this resource."@,
        ApiErrorView::NotFound(s) => s + " not found."@,
        ApiErrorView::Unprocessable(s) => "validation error: "@ + s,
        ApiErrorView::Server(c) => "server error ("@ + decimal(c as nat)
            + "). Try again or contact support."@,
        ApiErrorView::Network { url, reason } => "could not reach "@ + url + ": "@ + reason + "."@,
        ApiErrorView::Unexpected(s) => "unexpected response: "@ + s,
    }
}

/// Exit codes: 1 generic error, 2 payment required, 3 auth required,
/// 4 not found.
pub open spec fn exit_code_spec(e: ApiErrorView) -> u8 {
    match e {
        ApiErrorView::Unauthorized => 3,
        ApiErrorView::PaymentRequired { .. } => 2,
        ApiErrorView::NotFound(_) => 4,
        _ => 1,
    }
}

fn unwrap_or_empty(s: Option<String>) -> (r: String)
    ensures
        r@ == or_empty(opt_str(s)),
{
    match s {
        Some(t) => t,
        None => String::new(),
    }
}

/// Chooses the error for a failed response from its status and the strings
/// read from its body.
pub fn error_for_status(
    status: u16,
    message: String,
    code: String,
    checkout_url: Option<String>,
) -> (e: ApiError)
    ensures
        e@ == status_error(status, message@, code@, opt_str(checkout_url)),
{
    if status == 401 {
        ApiError::Unauthorized
    } else if status == 402 {
        ApiError::PaymentRequired { message, checkout_url }
    } else if status == 403 {
        ApiError::Forbidden
    } else if status == 404 {
        ApiError::NotFound(
            if message.unicode_len() == 0 {
                code
            } else {
                message
            },
        )
    } else if status == 422 {
        ApiError::Unprocessable(message)
    } else if 500 <= status && status <= 599 {
        ApiError::Server(status)
    } else {
        let s = String::from_str("HTTP ").concat(fmt_u16(status).as_str()).concat(" ").concat(
            message.as_str(),
        );
        ApiError::Unexpected(s)
    }
}

/// Converts a non-2xx response into the appropriate [`ApiError`]; `body` is
/// the response text (empty when it could not be read).
pub fn map_error(status: u16, body: &str) -> (e: ApiError)
    ensures
        e@ == response_error(status, body@),
{
    let message = unwrap_or_empty(nested_str(body, "error", "message"));
    let code = unwrap_or_empty(nested_str(body, "error", "code"));
    let checkout_url = top_str(body, "checkout_url");
    error_for_status(status, message, code, checkout_url)
}

/// The outcome of a response: `Ok` for a 2xx status, else its error.
pub fn check_response(status: u16, body: &str) -> (r: Result<(), ApiError>)
    ensures
        is_success(status) ==> r is Ok,
        !is_success(status) ==> (r matches Err(e) && e@ == response_error(status, body@)),
{
    if 200 <= status && status <= 299 {
        Ok(())
    } else {
        Err(map_error(status, body))
    }
}

impl ApiError {
    /// The message printed for this error.
    pub fn message(&self) -> (s: String)
        ensures
            s@ == message_spec(self@),
    {
        match self {
            ApiError::Unauthorized => String::from_str("not authenticated. Run `nvg auth login`."),
            ApiError::PaymentRequired { message, checkout_url } => match checkout_url {
                Some(u) => if message.unicode_len() == 0 {
                    String::from_str("payment required: ").concat(u.as_str())
                } else {
                    String::from_str("payment required: ").concat(message.as_str()).concat(
                        " (checkout: ",
                    ).concat(u.as_str()).concat(")")
                },
                None => String::from_str("payment required: ").concat(message.as_str()),
            },
            ApiError::Forbidden => String::from_str("not authorized for this resource."),
            ApiError::NotFound(s) => s.clone().concat(" not found."),
            ApiError::Unprocessable(s) => String::from_str("validation error: ").concat(
                s.as_str(),
            ),
            ApiError::Server(c) => String::from_str("server error (").concat(
                fmt_u16(*c).as_str(),
            ).concat("). Try again or contact support."),
            ApiError::Network { url, reason } => String::from_str("could not reach ").concat(
                url.as_str(),
            ).concat(": ").concat(reason.as_str()).concat("."),
            ApiError::Unexpected(s) => String::from_str("unexpected response: ").concat(
                s.as_str(),
            ),
        }
    }

    /// The process exit code for this error.
    pub fn exit_code(&self) -> (c: u8)
        ensures
            c == exit_code_spec(self@),
    {
        match self {
            ApiError::Unauthorized => 3,
            ApiError::PaymentRequired { .. } => 2,
            ApiError::NotFound(_) => 4,
            _ => 1,
        }
    }
}

/// The exit code for a failed command: its API error's code, 1 for any other
/// failure.
pub fn exit_code_for(err: Option<&ApiError>) -> (c: u8)
    ensures
        c == match err {
            Some(e) => exit_code_spec(e@),
            None => 1,
        },
{
    match err {
        Some(e) => e.exit_code(),
        None => 1,
    }
}

/// Exit code per HTTP status: a refused request ends `nvg` with 3 for 401
/// (auth required), 2 for 402 (payment required), 4 for 404 (not found) and
/// 1 for every other failure.
pub proof fn law_exit_code_by_status(
    status: u16,
    message: Seq<char>,
    code: Seq<char>,
    checkout_url: Option<Seq<char>>,
)
    requires
        !is_success(status),
    ensures
        exit_code_spec(status_error(status, message, code, checkout_url)) == if status == 401 {
            3u8
        } else if status == 402 {
            2u8
        } else if status == 404 {
            4u8
        } else {
            1u8
        },
{
}

/// A payment-required answer carries both the server's message and the
/// checkout URL of the body, and the printed message shows both, so that the
/// user can finish the payment.
pub proof fn law_payment_required_shows_message_and_checkout(status: u16, body: Seq<char>)
    requires
        status == 402,
    ensures
        response_error(status, body) == (ApiErrorView::PaymentRequired {
            message: or_empty(nested_string(body, "error"@, "message"@)),
            checkout_url: top_string(body, "checkout_url"@),
        }),
        ({
            let m = or_empty(nested_string(body, "error"@, "message"@));
            match top_string(body, "checkout_url"@) {
                Some(u) => message_spec(response_error(status, body)) == if m.len() == 0 {
                    "payment required: "@ + u
                } else {
                    "payment required: "@ + m + " (checkout: "@ + u + ")"@
                },
                None => message_spec(response_error(status, body)) == "payment required: "@ + m,
            }
        }),
{
}

} // verus!
