//! The transport encoding that payloads cross the host boundary in.
//!
//! Inbound frame bytes are re-encoded into a transport-safe text form before
//! they are handed to the host, and outbound payloads arrive from the host in
//! that form and are decoded back to raw bytes. The encoding is standard
//! base64 with padding; the byte-exact round trip from bytes to text and back
//! is part of every contract that speaks of it.

use vstd::prelude::*;
use crate::server::WsServerState;
use crate::starts_with;

verus! {

/// The standard padded base64 text of a byte sequence. The encoding is a
/// function of the bytes alone; `b64_decode` inverts it exactly.
pub uninterp spec fn b64_of(bytes: Seq<u8>) -> Seq<char>;

/// Relies on `base64::Engine::encode` with the standard padded alphabet: the
/// text returned depends on the input bytes alone, and an empty input gives
/// an empty text. The length bound keeps the input far from the point where
/// the encoder's output-size computation could overflow `usize`.
#[verifier::external_body]
fn b64_encode(data: &Vec<u8>) -> (r: String)
    requires
        data@.len() <= 0x1000_0000,
    ensures
        r@ == b64_of(data@),
        data@.len() == 0 ==> r@.len() == 0,
{
    base64::Engine::encode(&base64::engine::general_purpose::STANDARD, data)
}

/// Relies on `base64::Engine::decode` with the standard padded alphabet: the
/// decode of any text produced by the standard padded encoding succeeds and
/// returns exactly the bytes that were encoded. The engine requires canonical
/// padding and rejects non-canonical trailing bits, so a successful decode
/// conversely means the input was exactly the encoding of the result. On
/// failure the decode error's cause is carried behind the fixed prefix.
#[verifier::external_body]
fn b64_decode(data: &str) -> (r: Result<Vec<u8>, String>)
    ensures
        forall|bytes: Seq<u8>| data@ == b64_of(bytes) ==> r is Ok && r->Ok_0@ == bytes,
        r is Ok ==> data@ == b64_of(r->Ok_0@),
        r is Err ==> starts_with(r->Err_0@, "invalid base64: "@),
{
    base64::Engine::decode(&base64::engine::general_purpose::STANDARD, data)
        .map_err(|e| format!("invalid base64: {}", e))
}

/// Encodes raw payload bytes into the transport-safe text handed to the host.
pub fn encode_payload(data: &Vec<u8>) -> (r: String)
    requires
        data@.len() <= 0x1000_0000,
    ensures
        r@ == b64_of(data@),
{
    b64_encode(data)
}

/// Decodes a transport-encoded payload back to raw bytes. For any text the
/// transport encoding produces, this returns exactly the bytes that were
/// encoded — the byte-exact round trip; text that no byte sequence encodes
/// to is rejected with the decode cause behind the "invalid base64: " prefix.
pub fn decode_payload(data: &str) -> (r: Result<Vec<u8>, String>)
    ensures
        forall|bytes: Seq<u8>| data@ == b64_of(bytes) ==> r is Ok && r->Ok_0@ == bytes,
        r is Ok ==> data@ == b64_of(r->Ok_0@),
        r is Err ==> starts_with(r->Err_0@, "invalid base64: "@),
{
    b64_decode(data)
}

/// The host-facing send entry: decodes the transport-encoded payload and,
/// when a peer is connected, hands back the exact decoded bytes to transmit
/// as one binary frame. Text the transport encoding never produces fails
/// with the decode cause behind the "invalid base64: " prefix; a valid
/// payload with an empty connection slot fails with exactly
/// "no peer connected".
pub fn ws_send(state: &WsServerState, data: &str) -> (r: Result<Vec<u8>, String>)
    ensures
        r is Ok ==> state.slot_occupied,
        forall|bytes: Seq<u8>| data@ == b64_of(bytes) && state.slot_occupied ==> r is Ok
            && r->Ok_0@ == bytes,
        (exists|bytes: Seq<u8>| data@ == b64_of(bytes)) && !state.slot_occupied ==> r is Err
            && r->Err_0@ == "no peer connected"@,
        (forall|bytes: Seq<u8>| data@ != b64_of(bytes)) ==> r is Err && starts_with(
            r->Err_0@,
            "invalid base64: "@,
        ),
        r is Err ==> starts_with(r->Err_0@, "invalid base64: "@)
            || r->Err_0@ == "no peer connected"@,
{
    match decode_payload(data) {
        Err(e) => Err(e),
        Ok(bytes) => state.send(&bytes),
    }
}

} // verus!
