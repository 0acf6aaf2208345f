//! The three provider operations: where each is sent, the request bodies
//! they carry, and how a failed exchange is classified.

use vstd::prelude::*;
use vstd::string::*;
use vstd::utf8::encode_utf8;
use crate::domain::{AuthRequestData, CollectRequestData, SignRequestData, Status};
use crate::orchestrator::GatewayError;

verus! {

/// The standard, padded base64 text of a byte sequence.
pub uninterp spec fn base64_of(b: Seq<u8>) -> Seq<char>;

/// Length of padded base64 text for `n` bytes: four characters for each
/// started group of three.
pub open spec fn base64_len(n: nat) -> nat {
    4 * ((n + 2) / 3)
}

/// Relies on base64::encode (standard alphabet, padded): the text depends
/// on the bytes alone and has four characters per started group of three.
/// Its size computation panics only past `usize::MAX`, which the text of a
/// slice (at most `isize::MAX` bytes) never reaches.
#[verifier::external_body]
pub(crate) fn encode_base64(b: &[u8]) -> (r: String)
    ensures
        r@ == base64_of(b@),
        r@.len() == base64_len(b@.len()),
{
    base64::encode(b)
}

/// One of the provider's operations, each under its own path.
#[derive(Clone, Copy, Debug, PartialEq, Eq, Structural)]
pub enum Operation {
    Auth,
    Sign,
    Collect,
}

impl Operation {
    pub open spec fn spec_path(self) -> Seq<char> {
        match self {
            Operation::Auth => "auth"@,
            Operation::Sign => "sign"@,
            Operation::Collect => "collect"@,
        }
    }

    pub fn path(&self) -> (r: &'static str)
        ensures
            r@ == self.spec_path(),
    {
        match self {
            Operation::Auth => "auth",
            Operation::Sign => "sign",
            Operation::Collect => "collect",
        }
    }

    /// A start call must never be retried; a collect call may be.
    pub fn is_retry_safe(&self) -> (r: bool)
        ensures
            r == (*self is Collect),
    {
        match self {
            Operation::Collect => true,
            _ => false,
        }
    }
}

/// Address of an operation: the base endpoint, a slash, and the path.
pub fn operation_url(end_point: &str, op: Operation) -> (r: String)
    ensures
        r@ == end_point@ + "/"@ + op.spec_path(),
{
    let mut r = String::from_str(end_point);
    r.append("/");
    r.append(op.path());
    r
}

/// Classifies the status code of an answer: success codes (200 to 299)
/// pass, any other is a protocol error carrying the code.
pub fn check_status(code: u16) -> (r: Result<(), GatewayError>)
    ensures
        200 <= code < 300 <==> r is Ok,
        !(200 <= code < 300) ==> r == Err::<(), GatewayError>(GatewayError::Protocol(code)),
{
    if 200 <= code && code < 300 {
        Ok(())
    } else {
        Err(GatewayError::Protocol(code))
    }
}

/// Classifies a failed exchange: a body that could not be decoded, else an
/// answer with a status code, else a failure to reach the provider.
pub fn classify_failure(is_decode: bool, status: Option<u16>) -> (r: GatewayError)
    ensures
        is_decode ==> r == GatewayError::Decode,
        !is_decode && status is Some ==> r == GatewayError::Protocol(status->0),
        !is_decode && status is None ==> r == GatewayError::Network,
{
    if is_decode {
        GatewayError::Decode
    } else {
        match status {
            Some(code) => GatewayError::Protocol(code),
            None => GatewayError::Network,
        }
    }
}

/// Classifies a collect answer whose body could not be read, from its
/// status where that alone could be read: a terminal status makes it a
/// malformed terminal answer, escalated; anything else a transient decode
/// failure.
pub fn classify_unreadable(status: Option<Status>) -> (r: GatewayError)
    ensures
        (status matches Some(s) && s.is_terminal()) ==> r == GatewayError::MalformedTerminal,
        !(status matches Some(s) && s.is_terminal()) ==> r == GatewayError::Decode,
{
    match status {
        Some(Status::Complete) | Some(Status::Failed) => GatewayError::MalformedTerminal,
        _ => GatewayError::Decode,
    }
}

/// Body of a start-authentication call, without requirement.
pub fn auth_request(personal_number: Option<&str>, end_user_ip: &str) -> (r: AuthRequestData)
    ensures
        personal_number is None ==> r.personal_number is None,
        personal_number matches Some(p) ==> r.personal_number matches Some(q) && q@ == p@,
        r.end_user_ip@ == end_user_ip@,
        r.requirement is None,
{
    let pn = match personal_number {
        Some(s) => Some(String::from_str(s)),
        None => None,
    };
    AuthRequestData { personal_number: pn, end_user_ip: String::from_str(end_user_ip), requirement: None }
}

/// Body of a start-signing call, without requirement. Both texts are sent
/// as the base64 of their UTF-8 bytes.
pub fn sign_request(
    personal_number: Option<String>,
    end_user_ip: &str,
    user_visible_data: &str,
    user_non_visible_data: Option<String>,
) -> (r: SignRequestData)
    ensures
        r.personal_number == personal_number,
        r.end_user_ip@ == end_user_ip@,
        r.requirement is None,
        r.user_visible_data@ == base64_of(encode_utf8(user_visible_data@)),
        user_non_visible_data is None ==> r.user_non_visible_data is None,
        user_non_visible_data matches Some(s) ==> r.user_non_visible_data matches Some(t)
            && t@ == base64_of(encode_utf8(s@)),
{
    let visible = encode_base64(user_visible_data.as_bytes());
    let hidden = match user_non_visible_data {
        Some(s) => {
            let b = s.as_str().as_bytes();
            Some(encode_base64(b))
        },
        None => None,
    };
    SignRequestData {
        personal_number,
        end_user_ip: String::from_str(end_user_ip),
        requirement: None,
        user_visible_data: visible,
        user_non_visible_data: hidden,
    }
}

/// Body of a collect-status call.
pub fn collect_request(order_ref: &str) -> (r: CollectRequestData)
    ensures
        r.order_ref@ == order_ref@,
{
    CollectRequestData { order_ref: String::from_str(order_ref) }
}

} // verus!
