use vstd::prelude::*;

use crate::error::{DecodeFault, Error};
use crate::value::Val;
use crate::wire;

verus! {

/// Wire tag of a request frame.
pub const REQUEST_TAG: u64 = 0;

/// Wire tag of a response frame.
pub const RESPONSE_TAG: u64 = 1;

/// Wire tag of a notification frame.
pub const NOTIFY_TAG: u64 = 2;

/// One RPC message. On the wire every message is a single array-shaped
/// value whose element 0 is an integer tag:
///
/// - `Request`: `[0, msgid, method, params]`
/// - `Response`: `[1, msgid, error, result]`
/// - `Notify`: `[2, method, params]`
#[derive(Debug, PartialEq)]
pub enum Message {
    Request { msgid: u64, method: String, params: Vec<Val> },
    Response { msgid: u64, error: Val, result: Val },
    Notify { method: String, params: Vec<Val> },
}

/// The elements of the array that carries `m` on the wire.
pub open spec fn frame_seq(m: Message) -> Seq<Val> {
    match m {
        Message::Request { msgid, method, params } => seq![
            Val::UInt(REQUEST_TAG),
            Val::UInt(msgid),
            Val::Str(method),
            Val::Array(params),
        ],
        Message::Response { msgid, error, result } => seq![
            Val::UInt(RESPONSE_TAG),
            Val::UInt(msgid),
            error,
            result,
        ],
        Message::Notify { method, params } => seq![
            Val::UInt(NOTIFY_TAG),
            Val::Str(method),
            Val::Array(params),
        ],
    }
}

/// Decoding of a request frame body: element 1 must be an unsigned integer,
/// element 2 a string, element 3 an array. Elements past 3 are ignored.
pub open spec fn spec_decode_request(xs: Seq<Val>) -> Result<Message, DecodeFault> {
    if xs.len() >= 4 {
        match xs[1].spec_as_u64() {
            Some(msgid) => match (xs[2], xs[3]) {
                (Val::Str(method), Val::Array(params)) => Ok(
                    Message::Request { msgid, method, params },
                ),
                _ => Err(DecodeFault::BadField),
            },
            None => Err(DecodeFault::BadField),
        }
    } else {
        Err(DecodeFault::BadField)
    }
}

/// Decoding of a response frame body: element 1 must be an unsigned integer;
/// elements 2 and 3 may be any values. Elements past 3 are ignored.
pub open spec fn spec_decode_response(xs: Seq<Val>) -> Result<Message, DecodeFault> {
    if xs.len() >= 4 {
        match xs[1].spec_as_u64() {
            Some(msgid) => Ok(Message::Response { msgid, error: xs[2], result: xs[3] }),
            None => Err(DecodeFault::BadField),
        }
    } else {
        Err(DecodeFault::BadField)
    }
}

/// Decoding of a notification frame body: element 1 must be a string,
/// element 2 an array. Elements past 2 are ignored.
pub open spec fn spec_decode_notify(xs: Seq<Val>) -> Result<Message, DecodeFault> {
    if xs.len() >= 3 {
        match (xs[1], xs[2]) {
            (Val::Str(method), Val::Array(params)) => Ok(
                Message::Notify { method, params },
            ),
            _ => Err(DecodeFault::BadField),
        }
    } else {
        Err(DecodeFault::BadField)
    }
}

/// What decoding a top-level value yields: the message it carries, or the
/// exact fault. The value must be an array; element 0 must be an integer in
/// the known tag range; the remaining elements are read positionally.
pub open spec fn spec_decode(v: Val) -> Result<Message, DecodeFault> {
    match v {
        Val::Array(arr) => {
            let xs = arr@;
            if xs.len() == 0 {
                Err(DecodeFault::BadTag)
            } else {
                match xs[0].spec_as_i64() {
                    Some(tag) => if tag == REQUEST_TAG as i64 {
                        spec_decode_request(xs)
                    } else if tag == RESPONSE_TAG as i64 {
                        spec_decode_response(xs)
                    } else if tag == NOTIFY_TAG as i64 {
                        spec_decode_notify(xs)
                    } else {
                        Err(DecodeFault::UnknownTag)
                    },
                    None => Err(DecodeFault::BadTag),
                }
            }
        },
        _ => Err(DecodeFault::NotArray),
    }
}

impl Message {
    /// Serializes the message into the array-shaped value of its wire layout.
    pub fn encode(self) -> (v: Val)
        ensures
            v matches Val::Array(arr) && arr@ == frame_seq(self),
    {
        let ghost m = self;
        let mut arr: Vec<Val> = Vec::new();
        match self {
            Message::Request { msgid, method, params } => {
                arr.push(Val::UInt(REQUEST_TAG));
                arr.push(Val::UInt(msgid));
                arr.push(Val::Str(method));
                arr.push(Val::Array(params));
            },
            Message::Response { msgid, error, result } => {
                arr.push(Val::UInt(RESPONSE_TAG));
                arr.push(Val::UInt(msgid));
                arr.push(error);
                arr.push(result);
            },
            Message::Notify { method, params } => {
                arr.push(Val::UInt(NOTIFY_TAG));
                arr.push(Val::Str(method));
                arr.push(Val::Array(params));
            },
        }
        proof {
            assert(arr@ =~= frame_seq(m));
        }
        Val::Array(arr)
    }

    /// Destructures one top-level value into the message it carries,
    /// exactly as `spec_decode` says; every fault is reported as a
    /// `Decode` error.
    pub fn decode(v: Val) -> (r: Result<Message, Error>)
        ensures
            match spec_decode(v) {
                Ok(m) => r == Ok::<Message, Error>(m),
                Err(f) => r == Err::<Message, Error>(Error::Decode(f)),
            },
    {
        let mut arr = match v {
            Val::Array(arr) => arr,
            _ => {
                return Err(Error::Decode(DecodeFault::NotArray));
            },
        };
        if arr.len() == 0 {
            return Err(Error::Decode(DecodeFault::BadTag));
        }
        let tag = match arr[0].as_i64() {
            Some(tag) => tag,
            None => {
                return Err(Error::Decode(DecodeFault::BadTag));
            },
        };
        if tag == REQUEST_TAG as i64 {
            if arr.len() < 4 {
                return Err(Error::Decode(DecodeFault::BadField));
            }
            let msgid = match arr[1].as_u64() {
                Some(msgid) => msgid,
                None => {
                    return Err(Error::Decode(DecodeFault::BadField));
                },
            };
            let params_v = arr.remove(3);
            let method_v = arr.remove(2);
            match (method_v, params_v) {
                (Val::Str(method), Val::Array(params)) => Ok(
                    Message::Request { msgid, method, params },
                ),
                _ => Err(Error::Decode(DecodeFault::BadField)),
            }
        } else if tag == RESPONSE_TAG as i64 {
            if arr.len() < 4 {
                return Err(Error::Decode(DecodeFault::BadField));
            }
            let msgid = match arr[1].as_u64() {
                Some(msgid) => msgid,
                None => {
                    return Err(Error::Decode(DecodeFault::BadField));
                },
            };
            let result = arr.remove(3);
            let error = arr.remove(2);
            Ok(Message::Response { msgid, error, result })
        } else if tag == NOTIFY_TAG as i64 {
            if arr.len() < 3 {
                return Err(Error::Decode(DecodeFault::BadField));
            }
            let params_v = arr.remove(2);
            let method_v = arr.remove(1);
            match (method_v, params_v) {
                (Val::Str(method), Val::Array(params)) => Ok(
                    Message::Notify { method, params },
                ),
                _ => Err(Error::Decode(DecodeFault::BadField)),
            }
        } else {
            Err(Error::Decode(DecodeFault::UnknownTag))
        }
    }

    /// Blocks until one complete self-describing value has been read from
    /// the stream, then destructures it. A failure of the stream itself
    /// (including its end, and bytes that are no value at all) comes back
    /// as an `Io` error; a value that is no well-formed frame comes back
    /// as the `Decode` fault that `spec_decode` assigns to it.
    pub fn read_from<R: std::io::Read>(reader: &mut R) -> (r: Result<Message, Error>)
        ensures
            r matches Err(e) ==> (e is Io || e is Decode),
    {
        let w = match wire::read_wire(reader) {
            Ok(w) => w,
            Err(e) => {
                return Err(e);
            },
        };
        Message::decode(wire::own_of_wire(w))
    }

    /// Serializes the message per its wire layout, writes it to the stream
    /// as one complete frame, and flushes the stream before returning.
    /// Every failure is the stream's own, reported as an `Io` error.
    pub fn write_to<W: std::io::Write>(self, writer: &mut W) -> (r: Result<(), Error>)
        ensures
            r matches Err(e) ==> e is Io,
    {
        let w = wire::wire_of_own(self.encode());
        match wire::write_wire(writer, &w) {
            Ok(()) => (),
            Err(e) => {
                return Err(e);
            },
        }
        wire::flush_wire(writer)
    }
}

/// Round trip: the wire layout loses nothing. Any array value whose
/// elements are the frame of `m` decodes back to exactly `m`.
pub proof fn lemma_frame_round_trip(m: Message, v: Val)
    requires
        v matches Val::Array(arr) && arr@ == frame_seq(m),
    ensures
        spec_decode(v) == Ok::<Message, DecodeFault>(m),
{
}

} // verus!
