//! The trusted boundary to the MessagePack byte codec of the `rmpv` crate.
//!
//! Everything below the two contract-bearing functions is the outside
//! encoder and decoder; the library's own validation and framing are
//! verified against these contracts.

use vstd::prelude::*;

use crate::message::DecodeError;
use crate::value::{wf_view, Val, ValView};

use rmpv::Value as WireValue;

verus! {

/// The byte encoding of a value, as the MessagePack encoder writes it.
/// The encoding depends on the mathematical view alone: the encoder picks
/// each integer's shortest form from its value, and writes strings,
/// binaries, arrays and maps element by element in order.
pub uninterp spec fn encoded_bytes(v: ValView) -> Seq<u8>;

/// Converts one key-value entry of the library's map form over.
#[verifier::external_body]
fn to_entry(p: &(Val, Val)) -> (WireValue, WireValue) {
    (to_wire(&p.0), to_wire(&p.1))
}

/// Converts a value of the library to the outside codec's value type,
/// variant by variant.
#[verifier::external_body]
fn to_wire(v: &Val) -> WireValue {
    match v {
        Val::Nil => WireValue::Nil,
        Val::Bool(b) => WireValue::Boolean(*b),
        Val::UInt(n) => WireValue::Integer((*n).into()),
        Val::SInt(n) => WireValue::Integer((*n).into()),
        Val::Text(s) => WireValue::String(s.as_str().into()),
        Val::Bin(b) => WireValue::Binary(b.clone()),
        Val::Arr(xs) => WireValue::Array(xs.iter().map(to_wire).collect()),
        Val::Dict(ps) => WireValue::Map(ps.iter().map(to_entry).collect()),
        Val::Ext(t, b) => WireValue::Ext(*t, b.clone()),
    }
}

/// Converts the outside codec's integer form back: unsigned if it fits,
/// else signed.
#[verifier::external_body]
fn from_int(n: rmpv::Integer) -> Option<Val> {
    n.as_u64().map(Val::UInt).or_else(|| n.as_i64().map(Val::SInt))
}

/// Converts one key-value entry of the outside codec's map type back.
#[verifier::external_body]
fn from_entry(p: (WireValue, WireValue)) -> Option<(Val, Val)> {
    Some((from_wire(p.0)?, from_wire(p.1)?))
}

/// Converts the elements of the outside codec's array type back.
#[verifier::external_body]
fn from_items(xs: Vec<WireValue>) -> Option<Vec<Val>> {
    xs.into_iter().map(from_wire).collect()
}

/// Converts the entries of the outside codec's map type back.
#[verifier::external_body]
fn from_entries(ps: Vec<(WireValue, WireValue)>) -> Option<Vec<(Val, Val)>> {
    ps.into_iter().map(from_entry).collect()
}

/// Converts the outside codec's value type back, variant by variant.
/// Values the library cannot carry — floating point, strings that are not
/// UTF-8 — come back as `None`.
#[verifier::external_body]
fn from_wire(v: WireValue) -> Option<Val> {
    match v {
        WireValue::Nil => Some(Val::Nil),
        WireValue::Boolean(b) => Some(Val::Bool(b)),
        WireValue::Integer(n) => from_int(n),
        WireValue::String(s) => s.into_str().map(Val::Text),
        WireValue::Binary(b) => Some(Val::Bin(b)),
        WireValue::Array(xs) => from_items(xs).map(Val::Arr),
        WireValue::Map(ps) => from_entries(ps).map(Val::Dict),
        WireValue::Ext(t, b) => Some(Val::Ext(t, b)),
        _ => None,
    }
}

/// Relies on rmpv::encode::write_value: serializes one value as one
/// MessagePack value, at least one byte long, writing the mathematical
/// content of the tree; writing to a vector cannot fail.
#[verifier::external_body]
pub(crate) fn encode_value(v: &Val) -> (r: Vec<u8>)
    ensures
        r@ == encoded_bytes(v@),
        r@.len() >= 1,
{
    let mut buf: Vec<u8> = Vec::new();
    let wire = to_wire(v);
    rmpv::encode::write_value(&mut buf, &wire).expect("writing to a vector cannot fail");
    buf
}

/// Relies on rmpv::decode::read_value: reads exactly one MessagePack value
/// from the front of the buffer. The reader is deterministic and consumes
/// the bytes one value needs and no more, so a buffer that starts with the
/// encoding of a well-formed value yields exactly that value and its
/// length; a proper prefix of an encoding runs out of bytes, which the
/// reader reports as an unexpected end of input, mapped to `Truncated`.
/// Well-formed values stay within the reader's recursion budget.
#[verifier::external_body]
pub(crate) fn decode_value(bytes: &Vec<u8>) -> (r: Result<(Val, usize), DecodeError>)
    ensures
        r matches Ok(p) ==> 1 <= p.1 <= bytes@.len(),
        r matches Ok(p) ==> forall|v: ValView| #![trigger encoded_bytes(v)]
            wf_view(v) && encoded_bytes(v).is_prefix_of(bytes@) ==> p.0@ == v && p.1
                == encoded_bytes(v).len(),
        r matches Ok(p) ==> forall|v: ValView| #![trigger encoded_bytes(v)]
            wf_view(v) && bytes@.len() < encoded_bytes(v).len() ==> !bytes@.is_prefix_of(
                encoded_bytes(v),
            ),
        r matches Err(e) ==> forall|v: ValView| #![trigger encoded_bytes(v)]
            wf_view(v) ==> !encoded_bytes(v).is_prefix_of(bytes@),
        r matches Err(e) && e != DecodeError::Truncated ==> forall|v: ValView|
            #![trigger encoded_bytes(v)]
            wf_view(v) && bytes@.len() < encoded_bytes(v).len() ==> !bytes@.is_prefix_of(
                encoded_bytes(v),
            ),
{
    let mut cur = std::io::Cursor::new(bytes.as_slice());
    match rmpv::decode::read_value(&mut cur) {
        Ok(wire) => match from_wire(wire) {
            Some(v) => Ok((v, cur.position() as usize)),
            None => Err(DecodeError::Invalid),
        },
        Err(e) => if e.kind() == std::io::ErrorKind::UnexpectedEof {
            Err(DecodeError::Truncated)
        } else {
            Err(DecodeError::Invalid)
        },
    }
}

} // verus!
