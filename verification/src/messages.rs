//! Parsed RTMP messages and what the commands among them ask for.

use crate::amf0::{Amf0ValueType, Number};
use bytes::BytesMut;
use vstd::prelude::*;

verus! {

/// A parsed message. `Other` stands for every kind that a session ignores.
pub enum RtmpMessageData {
    Amf0Command {
        command_name: Amf0ValueType,
        transaction_id: Amf0ValueType,
        command_object: Amf0ValueType,
        others: Vec<Amf0ValueType>,
    },
    SetChunkSize { chunk_size: u32 },
    AudioData { data: BytesMut },
    VideoData { data: BytesMut },
    AmfData { raw_data: BytesMut },
    Other,
}

/// The text of a value, which is empty where the value is no string.
pub open spec fn text_of(value: Amf0ValueType) -> Seq<char> {
    match value {
        Amf0ValueType::UTF8String(text) => text@,
        _ => Seq::empty(),
    }
}

/// The number of a value, which is zero where the value is no number.
pub open spec fn number_of(value: Amf0ValueType) -> Number {
    match value {
        Amf0ValueType::Number(number) => number,
        _ => Number { bits: 0 },
    }
}

/// The properties of a value, of which there are none where the value is no
/// object.
pub open spec fn properties_of(value: Amf0ValueType) -> Map<Seq<char>, Amf0ValueType> {
    match value {
        Amf0ValueType::Object(object) => object@,
        _ => Map::empty(),
    }
}

/// How many values a `play` command reads: name, start, duration and reset, as
/// far as they are there. Values are counted in eight bits.
pub open spec fn play_reads(others: Seq<Amf0ValueType>) -> nat {
    let length = others.len() % 256;
    if length < 4 {
        length
    } else {
        4
    }
}

/// The stream that a `play` command names.
pub open spec fn play_name(others: Seq<Amf0ValueType>) -> Option<Seq<char>> {
    if play_reads(others) == 0 {
        None
    } else {
        match others[0] {
            Amf0ValueType::UTF8String(name) => Some(name@),
            _ => None,
        }
    }
}

/// Whether the text of `value` is `text`.
pub(crate) fn has_text(value: &Amf0ValueType, text: &str) -> (has: bool)
    ensures
        has == (text_of(*value) == text@),
{
    let expected: String = text.to_owned();
    match value {
        Amf0ValueType::UTF8String(actual) => *actual == expected,
        _ => expected == String::new(),
    }
}

/// The number of `value`: see [`number_of`].
pub(crate) fn number_or_zero(value: &Amf0ValueType) -> (number: Number)
    ensures
        number == number_of(*value),
{
    match value {
        Amf0ValueType::Number(number) => *number,
        _ => Number { bits: 0 },
    }
}

} // verus!
