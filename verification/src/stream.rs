//! A sample decode resource: a stream that replays a fixed run of numbers.
//!
//! The stream cannot implement the consuming decoder protocol itself — each
//! decode call needs a fresh implementor positioned at the stream's current
//! cursor — so it offers the manufacturing capability instead and is used
//! through [`crate::de::PersistentDeserializer`].

use vstd::prelude::*;

use crate::de::AsTransientDeserializer;
use crate::de::DecodeOp;
use crate::de::TransientDeserializer;

verus! {

/// What the number stream's decoder yields.
#[derive(Clone, Copy, PartialEq, Eq, Structural, Debug)]
pub enum StreamValue {
    /// One number read from the stream.
    Number(u64),
    /// How many numbers remain, answered when a sequence is begun.
    Count(usize),
}

/// The number stream's error type.
#[derive(Clone, Copy, PartialEq, Eq, Structural, Debug)]
pub enum StreamError {
    /// A read past the end of the stream.
    EndOfInput,
    /// An operation the stream does not support.
    Unsupported,
}

/// A resource replaying a fixed run of numbers from a cursor.  It persists
/// across calls; every decode call is served by a transient decoder
/// manufactured at the current cursor position.
pub struct NumberStream {
    /// The numbers the stream replays.
    pub items: Vec<u64>,
    /// The cursor: how many numbers have been consumed.
    pub pos: usize,
    /// Whether the stream considers its form human-readable.
    pub readable: bool,
}

impl NumberStream {
    /// A fresh stream positioned at the first number.
    pub fn new(items: Vec<u64>, readable: bool) -> (s: Self)
        ensures
            s.items@ == items@,
            s.pos == 0,
            s.readable == readable,
    {
        NumberStream { items, pos: 0, readable }
    }

    /// How many numbers remain in front of the cursor.
    pub open spec fn remaining_spec(&self) -> int {
        if self.pos <= self.items@.len() {
            self.items@.len() - self.pos
        } else {
            0
        }
    }
}

/// The transient decoder a [`NumberStream`] manufactures: it takes the
/// stream over for exactly one call and releases it, cursor advanced past
/// whatever the call consumed.
pub struct TransientNumberDecoder {
    /// The stream lent to this implementor for its single call.
    pub stream: NumberStream,
}

impl TransientNumberDecoder {
    /// The single result this implementor yields for an operation: reads
    /// answer the number under the cursor, beginning a sequence answers how
    /// many numbers remain, and every other operation is unsupported.
    pub open spec fn result_spec(&self, op: DecodeOp) -> Result<StreamValue, StreamError> {
        match op {
            DecodeOp::Any => self.read_spec(),
            DecodeOp::U64 => self.read_spec(),
            DecodeOp::Sequence => Ok(StreamValue::Count(self.stream.remaining_spec() as usize)),
            _ => Err(StreamError::Unsupported),
        }
    }

    /// What a read of the number under the cursor yields.
    pub open spec fn read_spec(&self) -> Result<StreamValue, StreamError> {
        if self.stream.pos < self.stream.items@.len() {
            Ok(StreamValue::Number(self.stream.items@[self.stream.pos as int]))
        } else {
            Err(StreamError::EndOfInput)
        }
    }

    /// The stream this implementor releases after the call: reads advance
    /// the cursor by the one number they consumed; everything else leaves
    /// the stream as it was.
    pub open spec fn rest_spec(&self, op: DecodeOp) -> NumberStream {
        match op {
            DecodeOp::Any => self.advanced_spec(),
            DecodeOp::U64 => self.advanced_spec(),
            _ => self.stream,
        }
    }

    /// The stream with its cursor moved past one consumed number.
    pub open spec fn advanced_spec(&self) -> NumberStream {
        if self.stream.pos < self.stream.items@.len() {
            NumberStream { pos: (self.stream.pos + 1) as usize, ..self.stream }
        } else {
            self.stream
        }
    }
}

impl TransientDeserializer for TransientNumberDecoder {
    type Value = StreamValue;

    type Error = StreamError;

    type Rest = NumberStream;

    /// This implementor is deterministic: the one admissible outcome is the
    /// result and advanced stream given by its result and rest functions.
    open spec fn decode_post(
        &self,
        op: DecodeOp,
        r: Result<StreamValue, StreamError>,
        rest: NumberStream,
    ) -> bool {
        r == self.result_spec(op) && rest == self.rest_spec(op)
    }

    fn decode(self, op: DecodeOp) -> (out: (Result<StreamValue, StreamError>, NumberStream)) {
        let TransientNumberDecoder { stream } = self;
        let NumberStream { items, pos, readable } = stream;
        match op {
            DecodeOp::Any => {
                if pos < items.len() {
                    let v = items[pos];
                    (
                        Ok(StreamValue::Number(v)),
                        NumberStream { items, pos: pos + 1, readable },
                    )
                } else {
                    (Err(StreamError::EndOfInput), NumberStream { items, pos, readable })
                }
            },
            DecodeOp::U64 => {
                if pos < items.len() {
                    let v = items[pos];
                    (
                        Ok(StreamValue::Number(v)),
                        NumberStream { items, pos: pos + 1, readable },
                    )
                } else {
                    (Err(StreamError::EndOfInput), NumberStream { items, pos, readable })
                }
            },
            DecodeOp::Sequence => {
                let remaining = if pos <= items.len() {
                    items.len() - pos
                } else {
                    0
                };
                (
                    Ok(StreamValue::Count(remaining)),
                    NumberStream { items, pos, readable },
                )
            },
            _ => (Err(StreamError::Unsupported), NumberStream { items, pos, readable }),
        }
    }
}

impl AsTransientDeserializer for NumberStream {
    type Value = StreamValue;

    type Error = StreamError;

    type Transient = TransientNumberDecoder;

    /// Manufacture hands the whole stream, cursor included, to the
    /// transient decoder.
    open spec fn transient_spec(&self) -> TransientNumberDecoder {
        TransientNumberDecoder { stream: *self }
    }

    open spec fn human_readable_spec(&self) -> bool {
        self.readable
    }

    fn as_transient_deserializer(self) -> (t: TransientNumberDecoder) {
        TransientNumberDecoder { stream: self }
    }

    fn is_human_readable(&self) -> (r: bool) {
        self.readable
    }
}

/// The number stream's one-call contract is a function: from a given
/// transient decoder, every operation has exactly one admissible result and
/// one released stream.  A bridged call and a direct call from the same
/// stream state therefore return the very same value or error.
pub proof fn lemma_stream_decode_deterministic(
    t: TransientNumberDecoder,
    op: DecodeOp,
    r1: Result<StreamValue, StreamError>,
    rest1: NumberStream,
    r2: Result<StreamValue, StreamError>,
    rest2: NumberStream,
)
    requires
        t.decode_post(op, r1, rest1),
        t.decode_post(op, r2, rest2),
    ensures
        r1 == r2,
        rest1 == rest2,
{
}

} // verus!
