//! Typed argument values and their payload encoding.

use vstd::prelude::*;
use vstd::utf8::encode_utf8;
use crate::wire::{be_bytes, extend, osc_string, pad, push_be_word, to_unsigned, twos_complement};

verus! {

/// ASCII `i`.
pub const TAG_INT32: u8 = 0x69;

/// ASCII `f`.
pub const TAG_FLOAT32: u8 = 0x66;

/// ASCII `s`.
pub const TAG_STRING: u8 = 0x73;

/// ASCII `b`.
pub const TAG_BLOB: u8 = 0x62;

/// The type of one argument, as announced in the type tag string.
#[derive(Clone, Copy, Debug, PartialEq, Eq)]
pub enum TypeTag {
    /// 32-bit signed integer, tag `i`.
    Int32,
    /// 32-bit IEEE-754 float, tag `f`.
    Float32,
    /// Null-terminated UTF-8 text, tag `s`.
    String,
    /// Binary blob, tag `b`. The tag is recognised, but no payload encoding
    /// exists for it.
    Blob,
}

impl TypeTag {
    /// The character that stands for this type on the wire.
    pub open spec fn wire_char(self) -> u8 {
        match self {
            TypeTag::Int32 => TAG_INT32,
            TypeTag::Float32 => TAG_FLOAT32,
            TypeTag::String => TAG_STRING,
            TypeTag::Blob => TAG_BLOB,
        }
    }

    /// Returns the character that stands for this type on the wire.
    pub fn to_wire_char(self) -> (c: u8)
        ensures
            c == self.wire_char(),
    {
        match self {
            TypeTag::Int32 => TAG_INT32,
            TypeTag::Float32 => TAG_FLOAT32,
            TypeTag::String => TAG_STRING,
            TypeTag::Blob => TAG_BLOB,
        }
    }
}

/// Why an argument could not be encoded.
#[derive(Clone, Copy, Debug, PartialEq, Eq)]
pub enum OscError {
    /// The argument's type has a tag but no payload encoding.
    UnsupportedType,
}

/// One argument handed to the encoder.
///
/// Text is borrowed as `&str`, so it is valid UTF-8 by construction and
/// encoding it cannot fail.
#[derive(Clone, Copy, Debug)]
pub enum Arg<'a> {
    /// Text, sent null-terminated and padded.
    String(&'a str),
    /// A signed integer, sent as four big-endian bytes.
    I32(i32),
    /// A single-precision float, given as its IEEE-754 bit pattern (what
    /// `f32::to_bits` returns) and sent as four big-endian bytes.
    F32(u32),
    /// A binary blob. Declared so that callers can name it; encoding one is
    /// refused.
    Blob(&'a [u8]),
}

/// An argument that has an encoding, as a mathematical value.
pub enum ArgValue {
    /// Text, as its sequence of characters.
    Text(Seq<char>),
    /// A signed 32-bit integer.
    Int32(i32),
    /// A single-precision float, as its IEEE-754 bit pattern.
    Float32(u32),
}

impl ArgValue {
    /// The type announced for this value.
    pub open spec fn tag(self) -> TypeTag {
        match self {
            ArgValue::Text(_) => TypeTag::String,
            ArgValue::Int32(_) => TypeTag::Int32,
            ArgValue::Float32(_) => TypeTag::Float32,
        }
    }

    /// The bytes this value contributes to the payload region.
    pub open spec fn payload(self) -> Seq<u8> {
        match self {
            ArgValue::Text(chars) => osc_string(encode_utf8(chars)),
            ArgValue::Int32(value) => be_bytes(twos_complement(value)),
            ArgValue::Float32(bits) => be_bytes(bits),
        }
    }
}

impl<'a> Arg<'a> {
    /// The value this argument encodes, or `None` if its type has no
    /// encoding.
    pub open spec fn value(self) -> Option<ArgValue> {
        match self {
            Arg::String(text) => Some(ArgValue::Text(text@)),
            Arg::I32(value) => Some(ArgValue::Int32(value)),
            Arg::F32(bits) => Some(ArgValue::Float32(bits)),
            Arg::Blob(_) => None,
        }
    }

    /// The type of this argument, whether or not it can be encoded.
    pub open spec fn tag(self) -> TypeTag {
        match self {
            Arg::String(_) => TypeTag::String,
            Arg::I32(_) => TypeTag::Int32,
            Arg::F32(_) => TypeTag::Float32,
            Arg::Blob(_) => TypeTag::Blob,
        }
    }

    /// Returns the type of this argument, whether or not it can be encoded.
    pub fn type_tag(&self) -> (tag: TypeTag)
        ensures
            tag == self.tag(),
    {
        match self {
            Arg::String(_) => TypeTag::String,
            Arg::I32(_) => TypeTag::Int32,
            Arg::F32(_) => TypeTag::Float32,
            Arg::Blob(_) => TypeTag::Blob,
        }
    }
}

/// Every payload is a whole number of four-byte words; numbers are exactly
/// one word.
pub proof fn lemma_payload_len(value: ArgValue)
    ensures
        value.payload().len() % 4 == 0,
        value.payload().len() >= 4,
        !(value is Text) ==> value.payload().len() == 4,
{
}

/// Encodes one argument into its type tag and payload bytes.
///
/// Fails, without producing anything, exactly when the argument is a blob.
pub fn encode(arg: &Arg) -> (res: Result<(TypeTag, Vec<u8>), OscError>)
    ensures
        match arg.value() {
            Some(value) => res matches Ok(encoded) && encoded.0 == value.tag() && encoded.1@
                == value.payload(),
            None => res matches Err(e) && e == OscError::UnsupportedType,
        },
{
    let mut payload: Vec<u8> = Vec::new();
    match arg {
        Arg::String(text) => {
            extend(&mut payload, text.as_bytes());
            payload.push(0);
            pad(&mut payload);
            Ok((TypeTag::String, payload))
        },
        Arg::I32(value) => {
            push_be_word(&mut payload, to_unsigned(*value));
            Ok((TypeTag::Int32, payload))
        },
        Arg::F32(bits) => {
            push_be_word(&mut payload, *bits);
            Ok((TypeTag::Float32, payload))
        },
        Arg::Blob(_) => Err(OscError::UnsupportedType),
    }
}

} // verus!
