use vstd::prelude::*;
use vstd::string::StringSliceAdditionalSpecFns;
use base64::Engine;
use crate::model::{Message, ReceivedMessage};

verus! {

#[verifier::external_type_specification]
#[verifier::external_body]
pub struct ExDecodeError(base64::DecodeError);

/// The padded standard-alphabet base64 text of a byte string.
pub uninterp spec fn base64_of(b: Seq<u8>) -> Seq<char>;

/// Relies on base64's `STANDARD` engine `encode`: the padded
/// standard-alphabet encoding, which depends on the bytes alone.
#[verifier::external_body]
fn encode_base64(b: &[u8]) -> (r: String)
    ensures
        r@ == base64_of(b@),
{
    base64::engine::general_purpose::STANDARD.encode(b)
}

/// Relies on base64's `STANDARD` engine `decode`: with canonical padding
/// required and trailing bits refused, it accepts exactly the texts that
/// `encode` produces, and gives back the bytes that were encoded.
#[verifier::external_body]
fn decode_base64(s: &str) -> (r: Result<Vec<u8>, base64::DecodeError>)
    ensures
        forall|b: Seq<u8>| #[trigger] base64_of(b) == s@ <==> (r is Ok && r->Ok_0@ == b),
{
    base64::engine::general_purpose::STANDARD.decode(s)
}

/// A received payload that is not the base64 text of any byte string.
#[derive(Debug, PartialEq, Eq, Structural)]
pub enum PayloadError {
    NotBase64,
}

/// An outbound message carrying `content` on `topic`, stamped with
/// `timestamp` (seconds since the epoch).
pub fn create_test_message(content: &str, topic: &str, timestamp: u64) -> (r: Message)
    ensures
        r.payload@ == base64_of(content.spec_bytes()),
        r.content_topic@ == topic@,
        r.timestamp == timestamp,
{
    Message {
        payload: encode_base64(content.as_bytes()),
        content_topic: topic.to_owned(),
        timestamp,
    }
}

impl ReceivedMessage {
    /// The bytes the payload encodes: exactly those whose base64 text it is.
    pub fn decoded_payload(&self) -> (r: Result<Vec<u8>, PayloadError>)
        ensures
            forall|b: Seq<u8>| #[trigger] base64_of(b) == self.payload@ <==> (r is Ok && r->Ok_0@ == b),
            r is Err ==> r == Err::<Vec<u8>, PayloadError>(PayloadError::NotBase64),
    {
        match decode_base64(self.payload.as_str()) {
            Ok(bytes) => Ok(bytes),
            Err(_) => Err(PayloadError::NotBase64),
        }
    }
}

} // verus!
