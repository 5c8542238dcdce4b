//! A sample encode resource: a sink whose transient encoder writes scalars
//! as text into a growing buffer.
//!
//! The sink cannot implement the consuming encoder protocol itself — each
//! encode call needs a fresh implementor borrowing the buffer — so it offers
//! the manufacturing capability instead and is used through
//! [`crate::ser::PersistentSerializer`].

use vstd::prelude::*;
use vstd::string::StringExecFns;

use crate::ser::AsTransientSerializer;
use crate::ser::EncodeOp;
use crate::ser::Scalar;
use crate::ser::TransientSerializeSeq;
use crate::ser::TransientSerializer;

verus! {

/// The text sink's error type.
#[derive(Clone, Copy, PartialEq, Eq, Structural, Debug)]
pub enum TextError {
    /// A value the sink has no textual form for.
    Unsupported,
}

/// A resource accumulating text.  It persists across calls; every encode
/// call is served by a transient encoder or transient sequence-writer
/// manufactured over the current buffer.
pub struct TextSink {
    /// The text written so far.
    pub out: String,
    /// Whether the sink considers its form human-readable.
    pub readable: bool,
}

impl TextSink {
    /// A fresh sink with an empty buffer.
    pub fn new(readable: bool) -> (s: Self)
        ensures
            s.out@ == Seq::<char>::empty(),
            s.readable == readable,
    {
        TextSink { out: String::new(), readable }
    }
}

/// The text a scalar is written as, where the sink has one for it.
pub open spec fn scalar_text(v: Scalar) -> Option<Seq<char>> {
    match v {
        Scalar::Bool(b) => Some(if b { "true"@ } else { "false"@ }),
        Scalar::Text(s) => Some(s@),
        _ => None,
    }
}

/// The text a single-call encode operation appends, where the sink supports
/// the operation.
pub open spec fn op_text(op: EncodeOp) -> Option<Seq<char>> {
    match op {
        EncodeOp::Bool(b) => Some(if b { "true"@ } else { "false"@ }),
        EncodeOp::Str(s) => Some(s@),
        EncodeOp::Unit => Some("()"@),
        EncodeOp::CollectStr(s) => Some(s@),
        _ => None,
    }
}

/// The transient encoder a [`TextSink`] manufactures: it takes the sink over
/// for exactly one call, appends the operation's text, and releases the
/// sink.
pub struct TransientTextEncoder {
    /// The sink lent to this implementor for its single call.
    pub sink: TextSink,
}

impl TransientSerializer for TransientTextEncoder {
    type Ok = ();

    type Error = TextError;

    type Rest = TextSink;

    /// This implementor is deterministic up to the buffer's text: a
    /// supported operation appends its text and succeeds; an unsupported
    /// one fails and leaves the buffer as it was.
    open spec fn encode_post(
        &self,
        op: EncodeOp,
        r: Result<(), TextError>,
        rest: TextSink,
    ) -> bool {
        rest.readable == self.sink.readable && match op_text(op) {
            Some(t) => r == Result::<(), TextError>::Ok(()) && rest.out@ == self.sink.out@ + t,
            None => r == Result::<(), TextError>::Err(TextError::Unsupported) && rest.out@
                == self.sink.out@,
        }
    }

    /// Beginning a sequence opens a bracket.
    open spec fn begin_seq_post(
        &self,
        len: Option<usize>,
        r: Result<(), TextError>,
        rest: TextSink,
    ) -> bool {
        rest.readable == self.sink.readable && r == Result::<(), TextError>::Ok(()) && rest.out@
            == self.sink.out@ + "["@
    }

    fn encode(self, op: EncodeOp) -> (out: (Result<(), TextError>, TextSink)) {
        let TransientTextEncoder { sink } = self;
        let TextSink { mut out, readable } = sink;
        match op {
            EncodeOp::Bool(b) => {
                if b {
                    out.append("true");
                } else {
                    out.append("false");
                }
                (Ok(()), TextSink { out, readable })
            },
            EncodeOp::Str(s) => {
                out.append(s.as_str());
                (Ok(()), TextSink { out, readable })
            },
            EncodeOp::Unit => {
                out.append("()");
                (Ok(()), TextSink { out, readable })
            },
            EncodeOp::CollectStr(s) => {
                out.append(s.as_str());
                (Ok(()), TextSink { out, readable })
            },
            _ => (Err(TextError::Unsupported), TextSink { out, readable }),
        }
    }

    fn begin_seq(self, len: Option<usize>) -> (out: (Result<(), TextError>, TextSink)) {
        let TransientTextEncoder { sink } = self;
        let TextSink { mut out, readable } = sink;
        out.append("[");
        (Ok(()), TextSink { out, readable })
    }
}

/// The transient sequence-writer a [`TextSink`] manufactures: one call
/// writes one element's text followed by a separator, or closes the
/// bracket, then releases the sink.
pub struct TransientTextSeqWriter {
    /// The sink lent to this implementor for its single call.
    pub sink: TextSink,
}

impl TransientSerializeSeq for TransientTextSeqWriter {
    type Ok = ();

    type Error = TextError;

    type Rest = TextSink;

    /// A supported element appends its text and a separator; an unsupported
    /// one fails and leaves the buffer as it was.
    open spec fn element_post(&self, v: Scalar, r: Result<(), TextError>, rest: TextSink) -> bool {
        rest.readable == self.sink.readable && match scalar_text(v) {
            Some(t) => r == Result::<(), TextError>::Ok(()) && rest.out@ == self.sink.out@ + t
                + ","@,
            None => r == Result::<(), TextError>::Err(TextError::Unsupported) && rest.out@
                == self.sink.out@,
        }
    }

    /// Finishing closes the bracket.
    open spec fn end_post(&self, r: Result<(), TextError>, rest: TextSink) -> bool {
        rest.readable == self.sink.readable && r == Result::<(), TextError>::Ok(()) && rest.out@
            == self.sink.out@ + "]"@
    }

    fn serialize_element(self, v: &Scalar) -> (out: (Result<(), TextError>, TextSink)) {
        let TransientTextSeqWriter { sink } = self;
        let TextSink { mut out, readable } = sink;
        match v {
            Scalar::Bool(b) => {
                if *b {
                    out.append("true");
                } else {
                    out.append("false");
                }
                out.append(",");
                (Ok(()), TextSink { out, readable })
            },
            Scalar::Text(s) => {
                out.append(s.as_str());
                out.append(",");
                (Ok(()), TextSink { out, readable })
            },
            _ => (Err(TextError::Unsupported), TextSink { out, readable }),
        }
    }

    fn end(self) -> (out: (Result<(), TextError>, TextSink)) {
        let TransientTextSeqWriter { sink } = self;
        let TextSink { mut out, readable } = sink;
        out.append("]");
        (Ok(()), TextSink { out, readable })
    }
}

impl AsTransientSerializer for TextSink {
    type Ok = ();

    type Error = TextError;

    type Transient = TransientTextEncoder;

    type SeqTransient = TransientTextSeqWriter;

    /// Manufacture hands the whole sink, buffer included, to the transient
    /// encoder.
    open spec fn transient_spec(&self) -> TransientTextEncoder {
        TransientTextEncoder { sink: *self }
    }

    /// Manufacture hands the whole sink, buffer included, to the transient
    /// sequence-writer.
    open spec fn seq_transient_spec(&self) -> TransientTextSeqWriter {
        TransientTextSeqWriter { sink: *self }
    }

    open spec fn human_readable_spec(&self) -> bool {
        self.readable
    }

    fn as_transient_serializer(self) -> (t: TransientTextEncoder) {
        TransientTextEncoder { sink: self }
    }

    fn as_transient_serialize_seq(self) -> (t: TransientTextSeqWriter) {
        TransientTextSeqWriter { sink: self }
    }

    fn is_human_readable(&self) -> (r: bool) {
        self.readable
    }
}

/// The text sink's one-call contract is a function up to the buffer's text:
/// from a given transient encoder, every operation has exactly one
/// admissible result and one released buffer content.  A bridged call and a
/// direct call from the same sink state therefore return the same value or
/// error and write the same text.
pub proof fn lemma_text_encode_deterministic(
    t: TransientTextEncoder,
    op: EncodeOp,
    r1: Result<(), TextError>,
    rest1: TextSink,
    r2: Result<(), TextError>,
    rest2: TextSink,
)
    requires
        t.encode_post(op, r1, rest1),
        t.encode_post(op, r2, rest2),
    ensures
        r1 == r2,
        rest1.out@ == rest2.out@,
        rest1.readable == rest2.readable,
{
}

/// The text a run of supported elements is written as: each element's text
/// followed by its separator, in order.
pub open spec fn elements_text(elems: Seq<Scalar>) -> Seq<char>
    decreases elems.len(),
{
    if elems.len() == 0 {
        Seq::<char>::empty()
    } else {
        (match scalar_text(elems[0]) {
            Some(t) => t + ","@,
            None => Seq::<char>::empty(),
        }) + elements_text(elems.drop_first())
    }
}

/// On a text sink the element-writing relation is a function: writing a run
/// of supported elements, one transient writer per call, succeeds and
/// appends exactly each element's text in order.
pub proof fn lemma_text_seq_write_deterministic(
    s: TextSink,
    elems: Seq<Scalar>,
    r: Result<(), TextError>,
    rest: TextSink,
)
    requires
        crate::ser::seq_write_post::<TextSink>(s, elems, r, rest),
        forall|i: int| 0 <= i < elems.len() ==> (#[trigger] scalar_text(elems[i])) is Some,
    ensures
        r == Result::<(), TextError>::Ok(()),
        rest.readable == s.readable,
        rest.out@ == s.out@ + elements_text(elems),
    decreases elems.len(),
{
    if elems.len() == 0 {
        assert(s.out@ + elements_text(elems) =~= s.out@);
    } else {
        let (r1, s1) = choose|r1: Result<(), TextError>, s1: TextSink|
            #[trigger] s.seq_transient_spec().element_post(elems[0], r1, s1) && match r1 {
                Result::Err(e) => r == Result::<(), TextError>::Err(e) && rest == s1,
                Result::Ok(_) => crate::ser::seq_write_post(s1, elems.drop_first(), r, rest),
            };
        assert(scalar_text(elems[0]) is Some);
        let t = scalar_text(elems[0])->Some_0;
        assert(r1 == Result::<(), TextError>::Ok(()));
        assert(s1.out@ == s.out@ + t + ","@);
        assert forall|i: int| 0 <= i < elems.drop_first().len() implies (#[trigger] scalar_text(
            elems.drop_first()[i],
        )) is Some by {
            assert(elems.drop_first()[i] == elems[i + 1]);
        }
        lemma_text_seq_write_deterministic(s1, elems.drop_first(), r, rest);
        assert(elements_text(elems) == t + ","@ + elements_text(elems.drop_first()));
        assert(s.out@ + (t + ","@ + elements_text(elems.drop_first())) =~= ((s.out@ + t) + ","@)
            + elements_text(elems.drop_first()));
        assert(s1.out@ == (s.out@ + t) + ","@);
    }
}

/// On a text sink the whole sequence run is a function: beginning a
/// sequence, writing a run of supported elements, and finishing succeeds
/// and appends exactly the bracketed element text.  Together with the
/// contracts of `collect_seq` and `drive_seq_direct`, the bridged run and
/// the direct run both produce this one output.
pub proof fn lemma_text_seq_encode_deterministic(
    s: TextSink,
    len: Option<usize>,
    elems: Seq<Scalar>,
    r: Result<(), TextError>,
    rest: TextSink,
)
    requires
        crate::ser::seq_encode_post::<TextSink>(s, len, elems, r, rest),
        forall|i: int| 0 <= i < elems.len() ==> (#[trigger] scalar_text(elems[i])) is Some,
    ensures
        r == Result::<(), TextError>::Ok(()),
        rest.readable == s.readable,
        rest.out@ == s.out@ + "["@ + elements_text(elems) + "]"@,
{
    let (r0, s0) = choose|r0: Result<(), TextError>, s0: TextSink|
        #[trigger] s.transient_spec().begin_seq_post(len, r0, s0) && match r0 {
            Result::Err(e) => r == Result::<(), TextError>::Err(e) && rest == s0,
            Result::Ok(_) => exists|rw: Result<(), TextError>, s1: TextSink|
                #[trigger] crate::ser::seq_write_post(s0, elems, rw, s1) && match rw {
                    Result::Err(e) => r == Result::<(), TextError>::Err(e) && rest == s1,
                    Result::Ok(_) => s1.seq_transient_spec().end_post(r, rest),
                },
        };
    assert(r0 == Result::<(), TextError>::Ok(()));
    assert(s0.out@ == s.out@ + "["@);
    let (rw, s1) = choose|rw: Result<(), TextError>, s1: TextSink|
        #[trigger] crate::ser::seq_write_post(s0, elems, rw, s1) && match rw {
            Result::Err(e) => r == Result::<(), TextError>::Err(e) && rest == s1,
            Result::Ok(_) => s1.seq_transient_spec().end_post(r, rest),
        };
    lemma_text_seq_write_deterministic(s0, elems, rw, s1);
    assert(rw == Result::<(), TextError>::Ok(()));
    assert(s1.seq_transient_spec().end_post(r, rest));
    assert(rest.out@ == s1.out@ + "]"@);
    assert(s1.out@ == (s.out@ + "["@) + elements_text(elems));
    assert(rest.out@ =~= s.out@ + "["@ + elements_text(elems) + "]"@);
}

} // verus!
