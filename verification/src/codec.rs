//! Framing of a [`ClientWsMessage`] for the broadcast bus.
//!
//! A frame is one tag byte for the kind, the sender id and the byte length
//! of the sender's name as little-endian 64-bit fields, the name's UTF-8
//! bytes, and the text's UTF-8 bytes to the end of the frame.  Decoding
//! accepts exactly the byte strings of that shape and inverts encoding.

use vstd::bytes::{
    lemma_auto_spec_u64_to_from_le_bytes, spec_u64_from_le_bytes, spec_u64_to_le_bytes,
    u64_from_le_bytes, u64_to_le_bytes,
};
use vstd::prelude::*;
use vstd::slice::{slice_subrange, slice_to_vec};
use vstd::string::StrSliceExecFns;
use vstd::utf8::{decode_utf8, encode_utf8, valid_utf8};

use crate::wire::{ClientWsMessage, ClientWsMessageType, WireView};

verus! {

/// Number of bytes before the name field: tag, sender id, name length.
pub const HEADER_LEN: usize = 17;

pub open spec fn spec_kind_tag(kind: ClientWsMessageType) -> u8 {
    match kind {
        ClientWsMessageType::Message => 0,
        ClientWsMessageType::Leave => 1,
        ClientWsMessageType::Kick => 2,
    }
}

pub open spec fn spec_tag_kind(tag: u8) -> Option<ClientWsMessageType> {
    if tag == 0 {
        Some(ClientWsMessageType::Message)
    } else if tag == 1 {
        Some(ClientWsMessageType::Leave)
    } else if tag == 2 {
        Some(ClientWsMessageType::Kick)
    } else {
        None
    }
}

/// The frame that encodes a message.
pub open spec fn spec_encode(m: WireView) -> Seq<u8> {
    seq![spec_kind_tag(m.message_type)] + spec_u64_to_le_bytes(m.member_id as u64)
        + spec_u64_to_le_bytes(encode_utf8(m.member_name).len() as u64)
        + encode_utf8(m.member_name) + encode_utf8(m.message)
}

/// The message a frame decodes to, or `None` for a malformed frame: one
/// shorter than the header, with an unknown tag, with a name length running
/// past the end, or whose name or text bytes are not UTF-8.
pub open spec fn spec_decode(b: Seq<u8>) -> Option<WireView> {
    if b.len() < HEADER_LEN {
        None
    } else {
        let kind_opt = spec_tag_kind(b[0]);
        let id = spec_u64_from_le_bytes(b.subrange(1, 9)) as i64;
        let n = spec_u64_from_le_bytes(b.subrange(9, HEADER_LEN as int));
        if kind_opt is None || n > b.len() - HEADER_LEN {
            None
        } else {
            let name_bytes = b.subrange(HEADER_LEN as int, HEADER_LEN + n);
            let text_bytes = b.subrange(HEADER_LEN + n, b.len() as int);
            if valid_utf8(name_bytes) && valid_utf8(text_bytes) {
                Some(
                    WireView {
                        member_id: id,
                        member_name: decode_utf8(name_bytes),
                        message_type: kind_opt.unwrap(),
                        message: decode_utf8(text_bytes),
                    },
                )
            } else {
                None
            }
        }
    }
}

/// Decoding inverts encoding: every message whose name fits a 64-bit byte
/// length (every machine-representable one does) comes back from its own
/// frame unchanged.
pub proof fn lemma_codec_round_trip(m: WireView)
    requires
        encode_utf8(m.member_name).len() <= u64::MAX,
    ensures
        spec_decode(spec_encode(m)) == Some(m),
{
    broadcast use vstd::utf8::encode_utf8_valid_utf8;
    broadcast use vstd::utf8::encode_utf8_decode_utf8;

    lemma_auto_spec_u64_to_from_le_bytes();
    let e = spec_encode(m);
    let name_bytes = encode_utf8(m.member_name);
    let text_bytes = encode_utf8(m.message);
    let n = name_bytes.len() as u64;
    assert(e.len() == HEADER_LEN + name_bytes.len() + text_bytes.len());
    assert(e[0] == spec_kind_tag(m.message_type));
    assert(e.subrange(1, 9) =~= spec_u64_to_le_bytes(m.member_id as u64));
    assert(e.subrange(9, HEADER_LEN as int) =~= spec_u64_to_le_bytes(n));
    assert(spec_u64_from_le_bytes(e.subrange(9, HEADER_LEN as int)) == name_bytes.len());
    assert(e.subrange(HEADER_LEN as int, HEADER_LEN + name_bytes.len()) =~= name_bytes);
    assert(e.subrange(HEADER_LEN + name_bytes.len(), e.len() as int) =~= text_bytes);
    assert(spec_tag_kind(spec_kind_tag(m.message_type)) == Some(m.message_type));
    let id = m.member_id;
    assert(((id as u64) as i64) == id) by (bit_vector);
}

fn kind_tag(kind: ClientWsMessageType) -> (tag: u8)
    ensures
        tag == spec_kind_tag(kind),
{
    match kind {
        ClientWsMessageType::Message => 0,
        ClientWsMessageType::Leave => 1,
        ClientWsMessageType::Kick => 2,
    }
}

fn tag_kind(tag: u8) -> (kind: Option<ClientWsMessageType>)
    ensures
        kind == spec_tag_kind(tag),
{
    if tag == 0 {
        Some(ClientWsMessageType::Message)
    } else if tag == 1 {
        Some(ClientWsMessageType::Leave)
    } else if tag == 2 {
        Some(ClientWsMessageType::Kick)
    } else {
        None
    }
}

/// Relies on `String::from_utf8`: it returns `Ok` exactly on UTF-8 input,
/// and the string it returns decodes those bytes.
#[verifier::external_body]
fn string_from_utf8(bytes: Vec<u8>) -> (r: Option<String>)
    ensures
        r is Some <==> valid_utf8(bytes@),
        r is Some ==> r.unwrap()@ == decode_utf8(bytes@),
{
    String::from_utf8(bytes).ok()
}

/// Build the bus frame for a message.
pub fn encode(m: &ClientWsMessage) -> (out: Vec<u8>)
    ensures
        out@ == spec_encode(m@),
{
    let mut out: Vec<u8> = Vec::new();
    out.push(kind_tag(m.message_type));
    let mut id_bytes = u64_to_le_bytes(#[verifier::truncate] (m.member_id as u64));
    out.append(&mut id_bytes);
    let mut name_bytes = m.member_name.as_str().as_bytes_vec();
    let mut len_bytes = u64_to_le_bytes(name_bytes.len() as u64);
    out.append(&mut len_bytes);
    out.append(&mut name_bytes);
    let mut text_bytes = m.message.as_str().as_bytes_vec();
    out.append(&mut text_bytes);
    proof {
        assert(out@ =~= spec_encode(m@));
    }
    out
}

/// Parse a bus frame; `None` exactly on the malformed frames that
/// [`spec_decode`] rejects.
pub fn decode(b: &[u8]) -> (r: Option<ClientWsMessage>)
    ensures
        r is Some <==> spec_decode(b@) is Some,
        r is Some ==> r.unwrap()@ == spec_decode(b@).unwrap(),
{
    if b.len() < HEADER_LEN {
        return None;
    }
    let kind = match tag_kind(b[0]) {
        Some(k) => k,
        None => {
            return None;
        },
    };
    let member_id_raw = u64_from_le_bytes(slice_subrange(b, 1, 9));
    let member_id = #[verifier::truncate] (member_id_raw as i64);
    let n = u64_from_le_bytes(slice_subrange(b, 9, HEADER_LEN));
    if n > (b.len() - HEADER_LEN) as u64 {
        return None;
    }
    let name_end = HEADER_LEN + n as usize;
    let member_name = match string_from_utf8(slice_to_vec(slice_subrange(b, HEADER_LEN, name_end)))
        {
        Some(s) => s,
        None => {
            return None;
        },
    };
    let message = match string_from_utf8(slice_to_vec(slice_subrange(b, name_end, b.len()))) {
        Some(s) => s,
        None => {
            return None;
        },
    };
    Some(ClientWsMessage { member_id, member_name, message_type: kind, message })
}

} // verus!
