use vstd::prelude::*;
use vstd::string::{StringExecFns, StringSliceAdditionalSpecFns};
use crate::text::{decimal, with_decimal};

verus! {

/// A status in the success class.
pub open spec fn is_success(status: u16) -> bool {
    200 <= status < 300
}

/// Why a control-plane operation failed.
#[derive(Debug, PartialEq, Eq, Structural)]
pub enum GatewayError {
    /// The subscription request was answered with this status.
    SubscriptionFailed { status: u16 },
    /// The publish request was answered with this status.
    PublishFailed { status: u16 },
    /// A listing answered with success did not hold a list of the expected shape.
    MalformedListing,
}

/// Whether a status is in the success class.
pub fn status_is_success(status: u16) -> (r: bool)
    ensures
        r == is_success(status),
{
    200 <= status && status < 300
}

/// A subscription succeeds exactly on a success status.
pub fn subscription_outcome(status: u16) -> (r: Result<(), GatewayError>)
    ensures
        is_success(status) ==> r == Ok::<(), GatewayError>(()),
        !is_success(status) ==> r == Err::<(), GatewayError>(GatewayError::SubscriptionFailed { status }),
{
    if status_is_success(status) {
        Ok(())
    } else {
        Err(GatewayError::SubscriptionFailed { status })
    }
}

/// A publish succeeds exactly on a success status.
pub fn publish_outcome(status: u16) -> (r: Result<(), GatewayError>)
    ensures
        is_success(status) ==> r == Ok::<(), GatewayError>(()),
        !is_success(status) ==> r == Err::<(), GatewayError>(GatewayError::PublishFailed { status }),
{
    if status_is_success(status) {
        Ok(())
    } else {
        Err(GatewayError::PublishFailed { status })
    }
}

/// Listings are advisory: a non-success status gives an empty list, never
/// an error. On success the decoded list is returned, and a body that did
/// not decode (`parsed` is `None`) is an error.
pub fn listing_outcome<T>(status: u16, parsed: Option<Vec<T>>) -> (r: Result<Vec<T>, GatewayError>)
    ensures
        !is_success(status) ==> r is Ok && r->Ok_0@.len() == 0,
        is_success(status) && parsed is Some ==> r == Ok::<Vec<T>, GatewayError>(parsed->0),
        is_success(status) && parsed is None ==> r == Err::<Vec<T>, GatewayError>(
            GatewayError::MalformedListing,
        ),
{
    if !status_is_success(status) {
        return Ok(Vec::new());
    }
    match parsed {
        Some(v) => Ok(v),
        None => Err(GatewayError::MalformedListing),
    }
}

/// Bytes left as they are by percent-encoding: ASCII alphanumerics and `-`, `.`, `_`, `~`.
pub open spec fn url_safe(b: u8) -> bool {
    (48 <= b <= 57) || (65 <= b <= 90) || (97 <= b <= 122) || b == 45 || b == 46 || b == 95 || b
        == 126
}

/// Upper-case hexadecimal digit for `d < 16`.
pub open spec fn hex_upper(d: u8) -> char {
    if d < 10 {
        ((48 + d) as u8) as char
    } else {
        ((55 + d) as u8) as char
    }
}

/// Percent-encoding of a byte string: safe bytes as themselves, every
/// other byte as `%` and two upper-case hexadecimal digits.
pub open spec fn percent_bytes(b: Seq<u8>) -> Seq<char>
    decreases b.len(),
{
    if b.len() == 0 {
        Seq::empty()
    } else {
        let c = b[0];
        let head = if url_safe(c) {
            seq![c as char]
        } else {
            seq!['%', hex_upper(c / 16), hex_upper(c % 16)]
        };
        head + percent_bytes(b.drop_first())
    }
}

/// Relies on urlencoding::encode: every byte of the text's UTF-8 encoding
/// but the unreserved ones becomes `%XX` with upper-case hex digits.
#[verifier::external_body]
fn percent_encode(s: &str) -> (r: String)
    ensures
        r@ == percent_bytes(s.spec_bytes()),
{
    urlencoding::encode(s).into_owned()
}

/// Root of a node's control plane.
pub open spec fn base_url(port: u16) -> Seq<char> {
    "http://127.0.0.1:"@ + decimal(port as nat)
}

fn endpoint(port: u16, path: &str) -> (r: String)
    ensures
        r@ == base_url(port) + path@,
{
    let mut s = with_decimal("http://127.0.0.1:", port);
    s.append(path);
    s
}

/// The info endpoint of the node whose control plane listens on `port`.
pub fn info_url(port: u16) -> (r: String)
    ensures
        r@ == base_url(port) + "/debug/v1/info"@,
{
    endpoint(port, "/debug/v1/info")
}

/// The subscription endpoint.
pub fn subscriptions_url(port: u16) -> (r: String)
    ensures
        r@ == base_url(port) + "/relay/v1/auto/subscriptions"@,
{
    endpoint(port, "/relay/v1/auto/subscriptions")
}

/// The publish endpoint.
pub fn publish_url(port: u16) -> (r: String)
    ensures
        r@ == base_url(port) + "/relay/v1/auto/messages"@,
{
    endpoint(port, "/relay/v1/auto/messages")
}

/// The listing endpoint of one topic, with the topic percent-encoded.
pub fn topic_messages_url(port: u16, topic: &str) -> (r: String)
    ensures
        r@ == base_url(port) + "/relay/v1/auto/messages/"@ + percent_bytes(topic.spec_bytes()),
{
    let mut s = endpoint(port, "/relay/v1/auto/messages/");
    let encoded = percent_encode(topic);
    s.append(encoded.as_str());
    s
}

/// The peer-list endpoint.
pub fn peers_url(port: u16) -> (r: String)
    ensures
        r@ == base_url(port) + "/admin/v1/peers"@,
{
    endpoint(port, "/admin/v1/peers")
}

} // verus!
