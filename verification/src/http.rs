//! Framing of a reply as an HTTP/1.1 response: the status line, the two
//! headers and the body.

use crate::text::{decimal_int, decimal_nat, push_decimal, push_decimal_i32};
use vstd::prelude::*;
use vstd::string::StringExecFns;

verus! {

/// The reason phrase that the status line carries for a status code; a code
/// outside the table is an unknown status code.
pub open spec fn reason_phrase(status_code: i32) -> Seq<char> {
    match status_code {
        // Informational responses
        100 => "Continue"@,
        101 => "Switching Protocols"@,
        102 => "Processing"@,
        103 => "Early Hints"@,
        // Successful responses
        200 => "OK"@,
        201 => "Created"@,
        202 => "Accepted"@,
        203 => "Non-Authoritative Information"@,
        204 => "No Content"@,
        205 => "Reset Content"@,
        206 => "Partial Content"@,
        207 => "Multi-Status"@,
        208 => "Already Reported"@,
        226 => "IM Used"@,
        // Redirection messages
        300 => "Multiple Choices"@,
        301 => "Moved Permanently"@,
        302 => "Found"@,
        303 => "See Other"@,
        304 => "Not Modified"@,
        305 => "Use Proxy"@,
        307 => "Temporary Redirect"@,
        308 => "Permanent Redirect"@,
        // Client error responses
        400 => "Bad Request"@,
        401 => "Unauthorized"@,
        402 => "Payment Required"@,
        403 => "Forbidden"@,
        404 => "Not Found"@,
        405 => "Method Not Allowed"@,
        406 => "Not Acceptable"@,
        407 => "Proxy Authentication Required"@,
        408 => "Request Timeout"@,
        409 => "Conflict"@,
        410 => "Gone"@,
        411 => "Length Required"@,
        412 => "Precondition Failed"@,
        413 => "Payload Too Large"@,
        414 => "URI Too Long"@,
        415 => "Unsupported Media Type"@,
        416 => "Range Not Satisfiable"@,
        417 => "Expectation Failed"@,
        418 => "I'm a teapot"@,
        421 => "Misdirected Request"@,
        422 => "Unprocessable Entity"@,
        423 => "Locked"@,
        424 => "Failed Dependency"@,
        425 => "Too Early"@,
        426 => "Upgrade Required"@,
        428 => "Precondition Required"@,
        429 => "Too Many Requests"@,
        431 => "Request Header Fields Too Large"@,
        451 => "Unavailable For Legal Reasons"@,
        // Server error responses
        500 => "Internal Server Error"@,
        501 => "Not Implemented"@,
        502 => "Bad Gateway"@,
        503 => "Service Unavailable"@,
        504 => "Gateway Timeout"@,
        505 => "HTTP Version Not Supported"@,
        506 => "Variant Also Negotiates"@,
        507 => "Insufficient Storage"@,
        508 => "Loop Detected"@,
        510 => "Not Extended"@,
        511 => "Network Authentication Required"@,
        _ => "Unknown Status Code"@,
    }
}

/// The reason phrase of `status_code`.
pub fn status_text(status_code: i32) -> (phrase: &'static str)
    ensures
        phrase@ == reason_phrase(status_code),
{
    match status_code {
        // Informational responses
        100 => "Continue",
        101 => "Switching Protocols",
        102 => "Processing",
        103 => "Early Hints",
        // Successful responses
        200 => "OK",
        201 => "Created",
        202 => "Accepted",
        203 => "Non-Authoritative Information",
        204 => "No Content",
        205 => "Reset Content",
        206 => "Partial Content",
        207 => "Multi-Status",
        208 => "Already Reported",
        226 => "IM Used",
        // Redirection messages
        300 => "Multiple Choices",
        301 => "Moved Permanently",
        302 => "Found",
        303 => "See Other",
        304 => "Not Modified",
        305 => "Use Proxy",
        307 => "Temporary Redirect",
        308 => "Permanent Redirect",
        // Client error responses
        400 => "Bad Request",
        401 => "Unauthorized",
        402 => "Payment Required",
        403 => "Forbidden",
        404 => "Not Found",
        405 => "Method Not Allowed",
        406 => "Not Acceptable",
        407 => "Proxy Authentication Required",
        408 => "Request Timeout",
        409 => "Conflict",
        410 => "Gone",
        411 => "Length Required",
        412 => "Precondition Failed",
        413 => "Payload Too Large",
        414 => "URI Too Long",
        415 => "Unsupported Media Type",
        416 => "Range Not Satisfiable",
        417 => "Expectation Failed",
        418 => "I'm a teapot",
        421 => "Misdirected Request",
        422 => "Unprocessable Entity",
        423 => "Locked",
        424 => "Failed Dependency",
        425 => "Too Early",
        426 => "Upgrade Required",
        428 => "Precondition Required",
        429 => "Too Many Requests",
        431 => "Request Header Fields Too Large",
        451 => "Unavailable For Legal Reasons",
        // Server error responses
        500 => "Internal Server Error",
        501 => "Not Implemented",
        502 => "Bad Gateway",
        503 => "Service Unavailable",
        504 => "Gateway Timeout",
        505 => "HTTP Version Not Supported",
        506 => "Variant Also Negotiates",
        507 => "Insufficient Storage",
        508 => "Loop Detected",
        510 => "Not Extended",
        511 => "Network Authentication Required",
        _ => "Unknown Status Code",
    }
}

/// The bytes of a whole response with `message` as its body: the status
/// line, the JSON content type, the body's length in bytes, an empty line
/// and the body.
pub open spec fn response_text(status_code: i32, message: Seq<char>, length: nat) -> Seq<char> {
    "HTTP/1.1 "@ + decimal_int(status_code as int) + " "@ + reason_phrase(status_code) + "\r\n"@
        + "Content-Type: application/json\r\n"@ + "Content-Length: "@ + decimal_nat(length)
        + "\r\n\r\n"@ + message
}

/// Frames `message` as the body of an HTTP/1.1 response with the given
/// status code. The length header counts the bytes of the body's UTF-8
/// encoding.
pub fn create_response(status_code: i32, message: &str) -> (response: String)
    ensures
        response@ == response_text(
            status_code,
            message@,
            message.len() as nat,
        ),
{
    let mut response = String::from_str("HTTP/1.1 ");
    push_decimal_i32(&mut response, status_code);
    response.append(" ");
    response.append(status_text(status_code));
    response.append("\r\n");
    response.append("Content-Type: application/json\r\n");
    response.append("Content-Length: ");
    push_decimal(&mut response, message.len() as u64);
    response.append("\r\n\r\n");
    response.append(message);
    response
}

/// The bytes of the response that serves a page: the status line of
/// success, the page's length in bytes, an empty line and the page.
pub open spec fn page_text(contents: Seq<char>, length: nat) -> Seq<char> {
    "HTTP/1.1 200 OK\r\n"@ + "Content-Length: "@ + decimal_nat(length) + "\r\n\r\n"@ + contents
}

/// Frames the contents of a page as a successful HTTP/1.1 response. The
/// length header counts the bytes of the page's UTF-8 encoding.
pub fn handle_okresponse(contents: &str) -> (response: String)
    ensures
        response@ == page_text(contents@, contents.len() as nat),
{
    let mut response = String::from_str("HTTP/1.1 200 OK\r\n");
    response.append("Content-Length: ");
    push_decimal(&mut response, contents.len() as u64);
    response.append("\r\n\r\n");
    response.append(contents);
    response
}

} // verus!
