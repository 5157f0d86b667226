use ink::scale::{Decode, DecodeLimit, Encode};
use ink::xcm::v4::{Location, Xcm};
use vstd::prelude::*;

verus! {

/// A cross-chain location. Nothing inside it is visible to the verifier.
#[verifier::external_type_specification]
#[verifier::external_body]
pub struct ExLocation(ink::xcm::v4::Location);

/// A cross-chain message. Nothing inside it is visible to the verifier.
#[verifier::external_type_specification]
#[verifier::external_body]
#[verifier::reject_recursive_types(T)]
pub struct ExXcm<T>(ink::xcm::v4::Xcm<T>);

/// The bytes that the SCALE codec writes for a location.
pub uninterp spec fn location_encoding(dest: Location) -> Seq<u8>;

/// The location that the SCALE codec reads from the front of `bytes`, if it
/// reads one.
pub uninterp spec fn location_decoding(bytes: Seq<u8>) -> Option<Location>;

/// The bytes that the SCALE codec writes for a message.
pub uninterp spec fn message_encoding(msg: Xcm<()>) -> Seq<u8>;

/// The message that the SCALE codec reads from the front of `bytes` when it
/// may descend `depth` levels into nested sequences, if it reads one.
pub uninterp spec fn message_decoding_within(depth: u32, bytes: Seq<u8>) -> Option<Xcm<()>>;

/// How deep a message may nest and still be read: the nesting that the
/// message format itself allows.
pub const MESSAGE_DEPTH_LIMIT: u32 = 8;

/// Whether a location denotes the interpreting chain itself.
pub uninterp spec fn location_is_here(dest: Location) -> bool;

/// `Encode::encode` on a `Location`. Trusted: the bytes depend on the
/// location alone, and `Decode::decode` reads the location back from them.
/// The second rests on the codec of a location being derived field by field,
/// down to its junctions, for writing and for reading alike.
#[verifier::external_body]
pub(crate) fn encode_location(dest: &Location) -> (bytes: Vec<u8>)
    ensures
        bytes@ == location_encoding(*dest),
        location_decoding(bytes@) == Some(*dest),
{
    dest.encode()
}

/// `Decode::decode` for `Location`, reading from the front of a byte slice;
/// a decoding error becomes `None`. Trusted: the call returns on every input,
/// a location holding no nested location, and what it returns depends on the
/// bytes alone.
#[verifier::external_body]
pub(crate) fn decode_location(bytes: &[u8]) -> (dest: Option<Location>)
    ensures
        dest == location_decoding(bytes@),
{
    let mut input: &[u8] = bytes;
    Location::decode(&mut input).ok()
}

/// `Encode::encode` on an `Xcm<()>`. Trusted: the bytes depend on the
/// message alone.
#[verifier::external_body]
pub(crate) fn encode_message(msg: &Xcm<()>) -> (bytes: Vec<u8>)
    ensures
        bytes@ == message_encoding(*msg),
{
    msg.encode()
}

/// `DecodeLimit::decode_with_depth_limit` for `Xcm<()>`, reading from the
/// front of a byte slice; a decoding error becomes `None`. Trusted: what the
/// call returns depends on the depth and the bytes alone. A message can hold
/// messages, and the decoder follows them; the depth given bounds how far, so
/// that the call returns whatever the bytes are. The decoder also bounds the
/// number of instructions it reads, so it refuses some messages that can be
/// encoded.
#[verifier::external_body]
pub(crate) fn decode_message_within(depth: u32, bytes: &[u8]) -> (msg: Option<Xcm<()>>)
    requires
        depth <= MESSAGE_DEPTH_LIMIT,
    ensures
        msg == message_decoding_within(depth, bytes@),
{
    let mut input: &[u8] = bytes;
    Xcm::<()>::decode_with_depth_limit(depth, &mut input).ok()
}

/// `Location::is_here`: no parents and an empty interior. Trusted: the answer
/// depends on the location alone.
#[verifier::external_body]
pub(crate) fn is_here(dest: &Location) -> (here: bool)
    ensures
        here == location_is_here(*dest),
{
    dest.is_here()
}

} // verus!
