//! The payload that a client hands over when it connects: its display name
//! in a buffer of fixed size.
//!
//! The first eight bytes hold the length of the name in bytes, little-endian.
//! The name follows as UTF-8. The rest of the buffer is zero.

use vstd::bytes::{spec_u64_from_le_bytes, spec_u64_to_le_bytes, u64_from_le_bytes, u64_to_le_bytes};
use vstd::prelude::*;
use vstd::slice::slice_subrange;
use vstd::string::StringSliceAdditionalSpecFns;
use vstd::utf8::{decode_utf8, encode_utf8, valid_utf8};
use crate::player::{Player, PlayerView};

verus! {

/// Size of the payload.
pub const USER_DATA_BYTES: usize = 256;

/// Size of the length that the payload starts with.
pub const LENGTH_BYTES: usize = 8;

/// The longest name, in bytes, that the payload has room for.
pub const MAX_NAME_BYTES: usize = 248;

/// The payload that carries `name`, for a name of at most `MAX_NAME_BYTES`
/// bytes.
pub open spec fn payload(name: Seq<u8>) -> Seq<u8> {
    Seq::new(
        USER_DATA_BYTES as nat,
        |i: int|
            if i < LENGTH_BYTES {
                spec_u64_to_le_bytes(name.len() as u64)[i]
            } else if i < LENGTH_BYTES + name.len() {
                name[i - LENGTH_BYTES]
            } else {
                0u8
            },
    )
}

/// The length of the name in `user_data`: the length that the payload
/// declares, cut down to the room there is.
pub open spec fn name_len(user_data: Seq<u8>) -> int {
    let declared = spec_u64_from_le_bytes(user_data.subrange(0, LENGTH_BYTES as int));
    if declared > MAX_NAME_BYTES {
        MAX_NAME_BYTES as int
    } else {
        declared as int
    }
}

/// The bytes of the name in `user_data`.
pub open spec fn name_bytes(user_data: Seq<u8>) -> Seq<u8> {
    user_data.subrange(LENGTH_BYTES as int, LENGTH_BYTES + name_len(user_data))
}

/// Reading a payload gives back the name that it was made from.
pub proof fn name_survives_payload(name: Seq<u8>)
    requires
        name.len() <= MAX_NAME_BYTES,
    ensures
        name_bytes(payload(name)) == name,
{
    vstd::bytes::lemma_auto_spec_u64_to_from_le_bytes();
    let prefix = spec_u64_to_le_bytes(name.len() as u64);
    assert(payload(name).subrange(0, LENGTH_BYTES as int) =~= prefix);
    assert(name_len(payload(name)) == name.len());
    assert(name_bytes(payload(name)) =~= name);
}

/// Packs `username` into a payload. There is none for a name of more than
/// `MAX_NAME_BYTES` bytes.
pub fn encode_user_data(username: &str) -> (user_data: Option<[u8; USER_DATA_BYTES]>)
    ensures
        match user_data {
            Some(buffer) => {
                &&& username.spec_bytes().len() <= MAX_NAME_BYTES
                &&& buffer@ == payload(username.spec_bytes())
            },
            None => username.spec_bytes().len() > MAX_NAME_BYTES,
        },
{
    let name = username.as_bytes();
    if name.len() > MAX_NAME_BYTES {
        return None;
    }
    let prefix = u64_to_le_bytes(name.len() as u64);
    let mut user_data = [0u8;USER_DATA_BYTES];
    let mut i: usize = 0;
    while i < LENGTH_BYTES
        invariant
            i <= LENGTH_BYTES,
            prefix@ == spec_u64_to_le_bytes(name@.len() as u64),
            prefix@.len() == LENGTH_BYTES,
            forall|j: int| 0 <= j < i ==> user_data@[j] == prefix@[j],
            forall|j: int| i <= j < USER_DATA_BYTES ==> user_data@[j] == 0u8,
        decreases LENGTH_BYTES - i,
    {
        user_data[i] = prefix[i];
        i += 1;
    }
    let mut k: usize = 0;
    while k < name.len()
        invariant
            k <= name@.len() <= MAX_NAME_BYTES,
            prefix@ == spec_u64_to_le_bytes(name@.len() as u64),
            forall|j: int| 0 <= j < LENGTH_BYTES ==> user_data@[j] == prefix@[j],
            forall|j: int|
                LENGTH_BYTES <= j < LENGTH_BYTES + k ==> user_data@[j] == name@[j - LENGTH_BYTES],
            forall|j: int| LENGTH_BYTES + k <= j < USER_DATA_BYTES ==> user_data@[j] == 0u8,
        decreases name@.len() - k,
    {
        user_data[k + LENGTH_BYTES] = name[k];
        k += 1;
    }
    assert(user_data@ =~= payload(name@));
    Some(user_data)
}

/// Unpacks the bytes of the name from a payload. A declared length beyond
/// the room there is is cut down to that room.
pub fn decode_user_data(user_data: &[u8; USER_DATA_BYTES]) -> (name: Vec<u8>)
    ensures
        name@ == name_bytes(user_data@),
{
    let bytes = user_data.as_slice();
    let declared = u64_from_le_bytes(slice_subrange(bytes, 0, LENGTH_BYTES));
    let len: usize = if declared > MAX_NAME_BYTES as u64 {
        MAX_NAME_BYTES
    } else {
        declared as usize
    };
    let mut name: Vec<u8> = Vec::new();
    let mut i: usize = 0;
    while i < len
        invariant
            i <= len <= MAX_NAME_BYTES,
            bytes@ == user_data@,
            bytes@.len() == USER_DATA_BYTES,
            name@ == user_data@.subrange(LENGTH_BYTES as int, LENGTH_BYTES + i),
        decreases len - i,
    {
        name.push(bytes[i + LENGTH_BYTES]);
        assert(name@ =~= user_data@.subrange(LENGTH_BYTES as int, LENGTH_BYTES + i + 1));
        i += 1;
    }
    name
}

/// The text that `bytes` encode, if they are valid UTF-8.
///
/// This is `String::from_utf8` of the standard library. Taken on trust: it
/// succeeds exactly on valid UTF-8, and the bytes of the text it returns are
/// the bytes it was given.
#[verifier::external_body]
fn text_from_utf8(bytes: Vec<u8>) -> (text: Option<String>)
    ensures
        text is Some <==> valid_utf8(bytes@),
        text matches Some(decoded) ==> encode_utf8(decoded@) == bytes@,
{
    match String::from_utf8(bytes) {
        Ok(decoded) => Some(decoded),
        Err(_) => None,
    }
}

/// The player that the payload of a connecting client stands for: a
/// newcomer by the name in the payload. There is none if the name is not
/// valid UTF-8.
pub fn name_from_user_data(user_data: &[u8; USER_DATA_BYTES]) -> (player: Option<Player>)
    ensures
        match player {
            Some(joining) => {
                &&& valid_utf8(name_bytes(user_data@))
                &&& joining@ == PlayerView::newcomer(decode_utf8(name_bytes(user_data@)))
            },
            None => !valid_utf8(name_bytes(user_data@)),
        },
{
    match text_from_utf8(decode_user_data(user_data)) {
        Some(name) => {
            proof {
                vstd::utf8::encode_utf8_decode_utf8(name@);
            }
            Some(Player::newcomer(name))
        },
        None => None,
    }
}

/// A name that fits the payload comes out of it as it went in.
pub proof fn name_survives_handshake(name: Seq<char>)
    requires
        encode_utf8(name).len() <= MAX_NAME_BYTES,
    ensures
        valid_utf8(name_bytes(payload(encode_utf8(name)))),
        decode_utf8(name_bytes(payload(encode_utf8(name)))) == name,
{
    name_survives_payload(encode_utf8(name));
    vstd::utf8::encode_utf8_valid_utf8(name);
    vstd::utf8::encode_utf8_decode_utf8(name);
}

} // verus!
