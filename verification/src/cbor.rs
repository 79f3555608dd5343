//! Trusted boundary around the DAG-CBOR codec.
//!
//! Everything the frame logic learns about CBOR passes through the wrappers
//! here.  What a decode returns is a pure function of the input bytes, but far
//! too large to write out, so it is given a name (`split_point`, `cbor_doc`,
//! `int_field`, `text_field`) and the contracts of the verified code speak of
//! those names.

use core::convert::Infallible;
use ipld_core::ipld::Ipld;
use serde_ipld_dagcbor::DecodeError;
use vstd::prelude::*;

verus! {

#[verifier::external_type_specification]
#[verifier::external_body]
pub struct ExIpld(Ipld);

#[verifier::external_type_specification]
#[verifier::external_body]
#[verifier::reject_recursive_types(E)]
pub struct ExDecodeError<E>(DecodeError<E>);

/// The number of bytes a DAG-CBOR decode of one leading value consumes from
/// `buf`, provided the decode succeeds and at least one byte is left over;
/// `None` when the decode fails or consumes the buffer exactly.
pub uninterp spec fn split_point(buf: Seq<u8>) -> Option<int>;

/// What decoding `buf` as one complete DAG-CBOR document yields.
pub uninterp spec fn cbor_doc(buf: Seq<u8>) -> Result<Ipld, DecodeError<Infallible>>;

/// The integer sitting at `key` of `v`: `Some` exactly when `v` is a map, the
/// key is present, and the entry is an integer.
pub uninterp spec fn int_field(v: Ipld, key: Seq<char>) -> Option<int>;

/// The text sitting at `key` of `v`: `Some` exactly when `v` is a map, the
/// key is present, and the entry is a text string.
pub uninterp spec fn text_field(v: Ipld, key: Seq<char>) -> Option<Seq<char>>;

/// The DAG-CBOR encoding of `v`: `Some` exactly when the codec can encode it
/// at all (it refuses non-finite floats and integers beyond the 64-bit
/// ranges).
pub uninterp spec fn enc_of(v: Ipld) -> Option<Seq<u8>>;

/// Relies on serde_ipld_dagcbor::from_reader over std::io::Cursor: decoding
/// one value that leaves bytes unread fails with DecodeError::TrailingData,
/// and the cursor then stands right after the value, strictly inside the
/// buffer; an exact fit or a malformed buffer ends otherwise.
#[verifier::external_body]
pub(crate) fn find_split(buf: &[u8]) -> (r: Option<usize>)
    ensures
        r is Some <==> split_point(buf@) is Some,
        r is Some ==> split_point(buf@) == Some(r->0 as int) && 0 < r->0 < buf@.len(),
{
    let mut cursor = std::io::Cursor::new(buf);
    match serde_ipld_dagcbor::from_reader::<Ipld, _>(&mut cursor) {
        Err(DecodeError::TrailingData) => Some(cursor.position() as usize),
        _ => None,
    }
}

/// Relies on serde_ipld_dagcbor::from_slice: decodes `buf` as exactly one
/// DAG-CBOR value, a pure function of the bytes.
#[verifier::external_body]
pub(crate) fn decode_ipld(buf: &[u8]) -> (r: Result<Ipld, DecodeError<Infallible>>)
    ensures
        r == cbor_doc(buf@),
{
    serde_ipld_dagcbor::from_slice::<Ipld>(buf)
}

/// Relies on ipld_core::ipld::Ipld and std's BTreeMap::get: reads the integer
/// entry of a map value at the given key, if there is one.
#[verifier::external_body]
pub(crate) fn get_int_field(v: &Ipld, key: &str) -> (r: Option<i128>)
    ensures
        r is Some <==> int_field(*v, key@) is Some,
        r is Some ==> int_field(*v, key@) == Some(r->0 as int),
{
    if let Ipld::Map(map) = v {
        if let Some(Ipld::Integer(i)) = map.get(key) {
            return Some(*i);
        }
    }
    None
}

/// Relies on ipld_core::ipld::Ipld and std's BTreeMap::get: reads the text
/// entry of a map value at the given key, if there is one.
#[verifier::external_body]
pub(crate) fn get_text_field(v: &Ipld, key: &str) -> (r: Option<String>)
    ensures
        r is Some <==> text_field(*v, key@) is Some,
        r is Some ==> text_field(*v, key@) == Some(r->0@),
{
    if let Ipld::Map(map) = v {
        if let Some(Ipld::String(s)) = map.get(key) {
            return Some(s.clone());
        }
    }
    None
}

/// Relies on serde_ipld_dagcbor::to_vec: encodes one value as DAG-CBOR, a
/// pure function of the value that fails only for what DAG-CBOR cannot carry.
/// A decode of the encoding alone never reports trailing data.  The decoder
/// need not accept the encoding — it refuses nesting deeper than a fixed
/// limit that the encoder does not enforce — but whenever it does, the
/// decoded value has the very same integer and text map entries as `v`, and a
/// decode of the encoding with anything appended stops right at the appended
/// part.
#[verifier::external_body]
pub(crate) fn encode_ipld(v: &Ipld) -> (r: Option<Vec<u8>>)
    ensures
        r is Some <==> enc_of(*v) is Some,
        r is Some ==> r->0@ == enc_of(*v)->0,
        r is Some ==> split_point(r->0@) is None,
        r is Some && cbor_doc(r->0@) is Ok ==> forall|k: Seq<char>|
            #[trigger] int_field(cbor_doc(r->0@)->Ok_0, k) == int_field(*v, k),
        r is Some && cbor_doc(r->0@) is Ok ==> forall|k: Seq<char>|
            #[trigger] text_field(cbor_doc(r->0@)->Ok_0, k) == text_field(*v, k),
        r is Some && cbor_doc(r->0@) is Ok ==> forall|extra: Seq<u8>|
            extra.len() > 0 ==> #[trigger] split_point(r->0@ + extra) == Some(r->0@.len() as int),
{
    serde_ipld_dagcbor::to_vec(v).ok()
}

} // verus!
