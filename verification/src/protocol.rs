//! The messages of the probe protocol and their bytes.
//!
//! Three messages are fixed markers. The fourth, the address reflection, is
//! the wire form of the endpoint it carries and nothing more, so the same
//! bytes serve as the reflection sent to the client and as the address
//! forwarded to the second server.

use vstd::prelude::*;
use crate::endpoint::{decode_endpoint, encode_endpoint, DecodeError, Endpoint};
use crate::endpoint::{endpoint_wire, lemma_parse_exact, lemma_parse_wire, lemma_wire_shape, parse_endpoint};

verus! {

/// Marker of [`Message::Hello`]: ASCII `hello`.
pub const HELLO_MESSAGE: [u8; 5] = [104, 101, 108, 108, 111];

/// Marker of [`Message::AlternatePortProbe`]: ASCII `new_server1`.
pub const NEW_SERVER1_MESSAGE: [u8; 11] = [110, 101, 119, 95, 115, 101, 114, 118, 101, 114, 49];

/// Marker of [`Message::SecondaryProbe`]: ASCII `server2`.
pub const SERVER2_MESSAGE: [u8; 7] = [115, 101, 114, 118, 101, 114, 50];

/// What travels between the client and the two servers.
#[derive(Clone, Copy, Debug, PartialEq, Eq, Hash)]
pub enum Message {
    /// Client to first server: opens a run.
    Hello,
    /// First server to client: the endpoint the hello was seen to come from.
    AddressReflection(Endpoint),
    /// First server to client, from another port than the one that heard the
    /// hello.
    AlternatePortProbe,
    /// Second server to client.
    SecondaryProbe,
}

/// The bytes of a message.
pub open spec fn message_wire(m: Message) -> Seq<u8> {
    match m {
        Message::Hello => HELLO_MESSAGE@,
        Message::AddressReflection(e) => endpoint_wire(e),
        Message::AlternatePortProbe => NEW_SERVER1_MESSAGE@,
        Message::SecondaryProbe => SERVER2_MESSAGE@,
    }
}

/// The message that `bytes` spells, if any: a marker, byte for byte, or the
/// complete wire form of an endpoint.
pub open spec fn parse_message(bytes: Seq<u8>) -> Option<Message> {
    if bytes == HELLO_MESSAGE@ {
        Some(Message::Hello)
    } else if bytes == NEW_SERVER1_MESSAGE@ {
        Some(Message::AlternatePortProbe)
    } else if bytes == SERVER2_MESSAGE@ {
        Some(Message::SecondaryProbe)
    } else {
        match parse_endpoint(bytes) {
            Some(e) => Some(Message::AddressReflection(e)),
            None => None,
        }
    }
}

/// The markers differ from one another, and none of them is the wire form of
/// an endpoint.
pub proof fn lemma_markers_distinct()
    ensures
        HELLO_MESSAGE@ != NEW_SERVER1_MESSAGE@,
        HELLO_MESSAGE@ != SERVER2_MESSAGE@,
        NEW_SERVER1_MESSAGE@ != SERVER2_MESSAGE@,
        parse_endpoint(HELLO_MESSAGE@) is None,
        parse_endpoint(NEW_SERVER1_MESSAGE@) is None,
        parse_endpoint(SERVER2_MESSAGE@) is None,
{
    assert forall|e: Endpoint|
        {
            &&& #[trigger] endpoint_wire(e) != HELLO_MESSAGE@
            &&& endpoint_wire(e) != NEW_SERVER1_MESSAGE@
            &&& endpoint_wire(e) != SERVER2_MESSAGE@
        } by {
        lemma_wire_shape(e);
    }
}

/// Round trip: the bytes of a message spell that message and no other.
pub proof fn lemma_parse_message_wire(m: Message)
    ensures
        parse_message(message_wire(m)) == Some(m),
{
    lemma_markers_distinct();
    match m {
        Message::AddressReflection(e) => {
            lemma_parse_wire(e);
        },
        _ => {},
    }
}

/// No two messages share their bytes.
pub proof fn lemma_message_wire_injective(a: Message, b: Message)
    requires
        message_wire(a) == message_wire(b),
    ensures
        a == b,
{
    lemma_parse_message_wire(a);
    lemma_parse_message_wire(b);
}

/// Whatever spells a message is exactly the bytes of that message.
pub proof fn lemma_parse_message_exact(bytes: Seq<u8>)
    ensures
        parse_message(bytes) matches Some(m) ==> message_wire(m) == bytes,
{
    lemma_parse_exact(bytes);
}

/// Bytes that are none of the markers and not the wire form of an endpoint
/// spell nothing.
pub proof fn lemma_unknown_bytes_rejected(bytes: Seq<u8>)
    requires
        bytes != HELLO_MESSAGE@,
        bytes != NEW_SERVER1_MESSAGE@,
        bytes != SERVER2_MESSAGE@,
        parse_endpoint(bytes) is None,
    ensures
        parse_message(bytes) is None,
{
}

/// Whether two byte strings are the same.
pub fn bytes_equal(a: &[u8], b: &[u8]) -> (same: bool)
    ensures
        same == (a@ == b@),
{
    if a.len() != b.len() {
        return false;
    }
    let mut i: usize = 0;
    while i < a.len()
        invariant
            i <= a.len(),
            a.len() == b.len(),
            a@.subrange(0, i as int) == b@.subrange(0, i as int),
        decreases a.len() - i,
    {
        if a[i] != b[i] {
            return false;
        }
        assert(a@.subrange(0, i + 1) =~= a@.subrange(0, i as int).push(a@[i as int]));
        assert(b@.subrange(0, i + 1) =~= b@.subrange(0, i as int).push(b@[i as int]));
        i = i + 1;
    }
    assert(a@ =~= a@.subrange(0, i as int));
    assert(b@ =~= b@.subrange(0, i as int));
    true
}

/// A copy of `bytes` that the caller owns.
pub fn owned_bytes(bytes: &[u8]) -> (copy: Vec<u8>)
    ensures
        copy@ == bytes@,
{
    let mut copy: Vec<u8> = Vec::new();
    let mut i: usize = 0;
    while i < bytes.len()
        invariant
            i <= bytes.len(),
            copy@ == bytes@.subrange(0, i as int),
        decreases bytes.len() - i,
    {
        copy.push(bytes[i]);
        assert(bytes@.subrange(0, i + 1) =~= bytes@.subrange(0, i as int).push(bytes@[i as int]));
        i = i + 1;
    }
    assert(bytes@ =~= bytes@.subrange(0, i as int));
    copy
}

/// The bytes to put on the wire for `m`.
pub fn encode(m: &Message) -> (bytes: Vec<u8>)
    ensures
        bytes@ == message_wire(*m),
        parse_message(bytes@) == Some(*m),
{
    proof {
        lemma_parse_message_wire(*m);
    }
    match m {
        Message::Hello => owned_bytes(&HELLO_MESSAGE),
        Message::AddressReflection(e) => encode_endpoint(e),
        Message::AlternatePortProbe => owned_bytes(&NEW_SERVER1_MESSAGE),
        Message::SecondaryProbe => owned_bytes(&SERVER2_MESSAGE),
    }
}

/// Reads a message. Succeeds exactly on a marker or on the complete wire form
/// of an endpoint; everything else is malformed.
pub fn decode(bytes: &[u8]) -> (r: Result<Message, DecodeError>)
    ensures
        parse_message(bytes@) matches Some(m) ==> r == Ok::<Message, DecodeError>(m),
        parse_message(bytes@) is None ==> r == Err::<Message, DecodeError>(DecodeError::Malformed),
{
    if bytes_equal(bytes, &HELLO_MESSAGE) {
        Ok(Message::Hello)
    } else if bytes_equal(bytes, &NEW_SERVER1_MESSAGE) {
        Ok(Message::AlternatePortProbe)
    } else if bytes_equal(bytes, &SERVER2_MESSAGE) {
        Ok(Message::SecondaryProbe)
    } else {
        match decode_endpoint(bytes) {
            Ok(e) => Ok(Message::AddressReflection(e)),
            Err(_) => Err(DecodeError::Malformed),
        }
    }
}

} // verus!
