use vstd::prelude::*;

use crate::error::Error;

verus! {

/// A dynamic, self-describing value: the payload type for every field that
/// travels on the wire.
///
/// The variant set is closed. Floating-point numbers are carried as their
/// IEEE 754 bit patterns (`Float32`, `Float64`), so values holding them can
/// be stored, compared and forwarded without interpreting them; turning the
/// bits into machine floats is left to unverified edge code.
#[derive(Debug, PartialEq)]
pub enum Val {
    Nil,
    Bool(bool),
    /// A signed integer. Non-negative integers read from the wire normally
    /// arrive as `UInt`.
    Int(i64),
    /// An unsigned integer.
    UInt(u64),
    /// The bits of a 32-bit IEEE 754 number.
    Float32(u32),
    /// The bits of a 64-bit IEEE 754 number.
    Float64(u64),
    Str(String),
    Bin(Vec<u8>),
    Array(Vec<Val>),
    /// An ordered sequence of key-value pairs.
    Dict(Vec<(Val, Val)>),
    /// An extension value: a type tag and its raw payload.
    Ext(i8, Vec<u8>),
}

impl Val {
    /// What `as_i64` returns: the value as a signed 64-bit integer, when the
    /// variant is an integer that fits.
    pub open spec fn spec_as_i64(&self) -> Option<i64> {
        match *self {
            Val::Int(n) => Some(n),
            Val::UInt(u) => if u <= i64::MAX as u64 {
                Some(u as i64)
            } else {
                None
            },
            _ => None,
        }
    }

    /// What `as_u64` returns: the value as an unsigned 64-bit integer, when
    /// the variant is a non-negative integer.
    pub open spec fn spec_as_u64(&self) -> Option<u64> {
        match *self {
            Val::Int(n) => if n >= 0 {
                Some(n as u64)
            } else {
                None
            },
            Val::UInt(u) => Some(u),
            _ => None,
        }
    }

    pub fn is_nil(&self) -> (r: bool)
        ensures
            r == (*self is Nil),
    {
        matches!(self, Val::Nil)
    }

    /// The value as a signed integer, if it is an integer and fits.
    pub fn as_i64(&self) -> (r: Option<i64>)
        ensures
            r == self.spec_as_i64(),
    {
        match self {
            Val::Int(n) => Some(*n),
            Val::UInt(u) => {
                if *u <= i64::MAX as u64 {
                    Some(*u as i64)
                } else {
                    None
                }
            },
            _ => None,
        }
    }

    /// The value as an unsigned integer, if it is an integer and non-negative.
    pub fn as_u64(&self) -> (r: Option<u64>)
        ensures
            r == self.spec_as_u64(),
    {
        match self {
            Val::Int(n) => {
                if *n >= 0 {
                    Some(*n as u64)
                } else {
                    None
                }
            },
            Val::UInt(u) => Some(*u),
            _ => None,
        }
    }

    pub fn as_bool(&self) -> (r: Option<bool>)
        ensures
            r == (match *self {
                Val::Bool(b) => Some(b),
                _ => None,
            }),
    {
        match self {
            Val::Bool(b) => Some(*b),
            _ => None,
        }
    }

    pub fn as_str<'a>(&'a self) -> (r: Option<&'a str>)
        ensures
            match r {
                Some(t) => *self matches Val::Str(s) && t@ == s@,
                None => !(*self is Str),
            },
    {
        match self {
            Val::Str(s) => Some(s.as_str()),
            _ => None,
        }
    }

    pub fn as_array<'a>(&'a self) -> (r: Option<&'a Vec<Val>>)
        ensures
            match r {
                Some(xs) => *self == Val::Array(*xs),
                None => !(*self is Array),
            },
    {
        match self {
            Val::Array(xs) => Some(xs),
            _ => None,
        }
    }

    pub fn as_map<'a>(&'a self) -> (r: Option<&'a Vec<(Val, Val)>>)
        ensures
            match r {
                Some(ps) => *self == Val::Dict(*ps),
                None => !(*self is Dict),
            },
    {
        match self {
            Val::Dict(ps) => Some(ps),
            _ => None,
        }
    }

    /// The owned string inside, or `TypeMismatch` for every other variant.
    pub fn into_string(self) -> (r: Result<String, Error>)
        ensures
            match r {
                Ok(s) => self == Val::Str(s),
                Err(e) => e is TypeMismatch && !(self is Str),
            },
    {
        match self {
            Val::Str(s) => Ok(s),
            _ => Err(Error::TypeMismatch),
        }
    }

    /// The owned element vector inside, or `TypeMismatch` for every other
    /// variant.
    pub fn into_array(self) -> (r: Result<Vec<Val>, Error>)
        ensures
            match r {
                Ok(xs) => self == Val::Array(xs),
                Err(e) => e is TypeMismatch && !(self is Array),
            },
    {
        match self {
            Val::Array(xs) => Ok(xs),
            _ => Err(Error::TypeMismatch),
        }
    }

    /// The owned key-value pairs inside, or `TypeMismatch` for every other
    /// variant.
    pub fn into_map(self) -> (r: Result<Vec<(Val, Val)>, Error>)
        ensures
            match r {
                Ok(ps) => self == Val::Dict(ps),
                Err(e) => e is TypeMismatch && !(self is Dict),
            },
    {
        match self {
            Val::Dict(ps) => Ok(ps),
            _ => Err(Error::TypeMismatch),
        }
    }

    /// The signed integer inside, or `TypeMismatch` when the value is no
    /// integer or does not fit.
    pub fn into_i64(self) -> (r: Result<i64, Error>)
        ensures
            match r {
                Ok(n) => self.spec_as_i64() == Some(n),
                Err(e) => e is TypeMismatch && self.spec_as_i64() is None,
            },
    {
        match self.as_i64() {
            Some(n) => Ok(n),
            None => Err(Error::TypeMismatch),
        }
    }

    /// The boolean inside, or `TypeMismatch` for every other variant.
    pub fn into_bool(self) -> (r: Result<bool, Error>)
        ensures
            match r {
                Ok(b) => self == Val::Bool(b),
                Err(e) => e is TypeMismatch && !(self is Bool),
            },
    {
        match self {
            Val::Bool(b) => Ok(b),
            _ => Err(Error::TypeMismatch),
        }
    }
}

} // verus!
