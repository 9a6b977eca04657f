//! The trusted edge around the `rmpv` serialization crate.
//!
//! Everything in this module either declares an `rmpv` type to the verifier
//! or wraps one `rmpv` call (or one `std` stream call) in an `external_body`
//! function whose body only converts values one for one. The codec logic
//! itself — what a frame means — lives in `rpc` and is verified.

use vstd::prelude::*;

use rmpv::Value as Wire;

use crate::error::Error;
use crate::value::Val;

verus! {

/// `rmpv::Value`, the dynamic value type of the serialization crate.
#[verifier::external_type_specification]
#[verifier::external_body]
pub struct ExWireValue(rmpv::Value);

/// `rmpv::Integer`, the integer payload of `rmpv::Value::Integer`.
#[verifier::external_type_specification]
#[verifier::external_body]
pub struct ExWireInteger(rmpv::Integer);

/// `rmpv::Utf8String`, the string payload of `rmpv::Value::String`.
#[verifier::external_type_specification]
#[verifier::external_body]
pub struct ExWireUtf8String(rmpv::Utf8String);

/// Relies on rmpv::Integer::as_u64 and as_i64: every wire integer lies in
/// `-(2^63) .. 2^64 - 1`, so one of the two accessors returns the value;
/// negative integers always fit in `i64`, so the fallback never fires.
#[verifier::external_body]
pub(crate) fn own_int(n: rmpv::Integer) -> Val {
    match n.as_u64() {
        Some(u) => Val::UInt(u),
        None => Val::Int(n.as_i64().unwrap_or(0)),
    }
}

/// Relies on rmpv::Utf8String::is_str, into_str and into_bytes: a wire
/// string either holds valid UTF-8, kept as a string, or raw bytes, kept
/// as binary. The `unwrap_or_default` arm never fires on a valid string.
#[verifier::external_body]
pub(crate) fn own_text(s: rmpv::Utf8String) -> Val {
    if s.is_str() {
        Val::Str(s.into_str().unwrap_or_default())
    } else {
        Val::Bin(s.into_bytes())
    }
}

/// Converts one wire key-value pair, each side through `own_of_wire`.
#[verifier::external_body]
pub(crate) fn own_pair(p: (Wire, Wire)) -> (Val, Val) {
    (own_of_wire(p.0), own_of_wire(p.1))
}

/// Relies on the variant set of rmpv::Value: maps each wire variant to the
/// corresponding own variant, one for one; floats are kept as their bits.
#[verifier::external_body]
pub(crate) fn own_of_wire(v: Wire) -> Val {
    match v {
        Wire::Nil => Val::Nil,
        Wire::Boolean(b) => Val::Bool(b),
        Wire::Integer(n) => own_int(n),
        Wire::F32(f) => Val::Float32(f.to_bits()),
        Wire::F64(f) => Val::Float64(f.to_bits()),
        Wire::String(s) => own_text(s),
        Wire::Binary(b) => Val::Bin(b),
        Wire::Array(xs) => Val::Array(xs.into_iter().map(own_of_wire).collect()),
        Wire::Map(ps) => Val::Dict(ps.into_iter().map(own_pair).collect()),
        Wire::Ext(t, d) => Val::Ext(t, d),
    }
}

/// Relies on rmpv::decode::read_value: the nine-byte sequence `0xcb` plus
/// the big-endian bytes of `bits` is the wire form of exactly the 64-bit
/// float with those bits, so decoding it rebuilds that float. The fallback
/// arm never fires on this well-formed input.
#[verifier::external_body]
pub(crate) fn wire_float64(bits: u64) -> Wire {
    let mut buf: Vec<u8> = vec![0xcb];
    buf.extend_from_slice(&bits.to_be_bytes());
    rmpv::decode::read_value(&mut &buf[..]).unwrap_or(Wire::Nil)
}

/// Relies on rmpv::decode::read_value: the five-byte sequence `0xca` plus
/// the big-endian bytes of `bits` is the wire form of exactly the 32-bit
/// float with those bits, so decoding it rebuilds that float. The fallback
/// arm never fires on this well-formed input.
#[verifier::external_body]
pub(crate) fn wire_float32(bits: u32) -> Wire {
    let mut buf: Vec<u8> = vec![0xca];
    buf.extend_from_slice(&bits.to_be_bytes());
    rmpv::decode::read_value(&mut &buf[..]).unwrap_or(Wire::Nil)
}

/// Converts one own key-value pair, each side through `wire_of_own`.
#[verifier::external_body]
pub(crate) fn wire_pair(p: (Val, Val)) -> (Wire, Wire) {
    (wire_of_own(p.0), wire_of_own(p.1))
}

/// Relies on the variant set of rmpv::Value and its From impls for i64,
/// u64 and String: maps each own variant to the corresponding wire
/// variant, one for one.
#[verifier::external_body]
pub(crate) fn wire_of_own(v: Val) -> Wire {
    match v {
        Val::Nil => Wire::Nil,
        Val::Bool(b) => Wire::Boolean(b),
        Val::Int(n) => Wire::from(n),
        Val::UInt(n) => Wire::from(n),
        Val::Float32(bits) => wire_float32(bits),
        Val::Float64(bits) => wire_float64(bits),
        Val::Str(s) => Wire::String(s.into()),
        Val::Bin(b) => Wire::Binary(b),
        Val::Array(xs) => Wire::Array(xs.into_iter().map(wire_of_own).collect()),
        Val::Dict(ps) => Wire::Map(ps.into_iter().map(wire_pair).collect()),
        Val::Ext(t, d) => Wire::Ext(t, d),
    }
}

/// Relies on rmpv::decode::read_value: blocks until one complete
/// self-describing value has been read from the stream, and reports any
/// failure — end of stream, a stream error, or malformed bytes — as the
/// stream-level error it wraps.
#[verifier::external_body]
pub(crate) fn read_wire<R: std::io::Read>(reader: &mut R) -> (r: Result<Wire, Error>)
    ensures
        r matches Err(e) ==> e is Io,
{
    rmpv::decode::read_value(reader).map_err(|e| Error::Io(format!("{e}")))
}

/// Relies on rmpv::encode::write_value: writes the complete wire form of
/// the value to the stream, or reports the stream's own failure.
#[verifier::external_body]
pub(crate) fn write_wire<W: std::io::Write>(writer: &mut W, v: &Wire) -> (r: Result<(), Error>)
    ensures
        r matches Err(e) ==> e is Io,
{
    rmpv::encode::write_value(writer, v).map_err(|e| Error::Io(format!("{e}")))
}

/// Relies on std::io::Write::flush: pushes every buffered byte down the
/// stream, or reports the stream's own failure.
#[verifier::external_body]
pub(crate) fn flush_wire<W: std::io::Write>(writer: &mut W) -> (r: Result<(), Error>)
    ensures
        r matches Err(e) ==> e is Io,
{
    writer.flush().map_err(|e| Error::Io(format!("{e}")))
}

} // verus!
