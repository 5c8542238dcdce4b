//! The encode bridge: implements the consuming encoder protocol, including
//! the multi-step sequence sub-protocol, for any resource that can
//! manufacture a transient encoder or transient sequence-writer per call.

use vstd::prelude::*;

verus! {

/// A scalar payload of the encoder protocol.
pub enum Scalar {
    Bool(bool),
    I8(i8),
    I16(i16),
    I32(i32),
    I64(i64),
    I128(i128),
    U8(u8),
    U16(u16),
    U32(u32),
    U64(u64),
    U128(u128),
    Char(char),
    Text(String),
    Bytes(Vec<u8>),
}

/// One single-call operation of the consuming encoder protocol, with its
/// arguments.  The bridge forwards the operation unchanged; no argument is
/// inspected or transformed.  The multi-step sequence sub-protocol has its
/// own calls and is not an operation here.
pub enum EncodeOp {
    Bool(bool),
    I8(i8),
    I16(i16),
    I32(i32),
    I64(i64),
    I128(i128),
    U8(u8),
    U16(u16),
    U32(u32),
    U64(u64),
    U128(u128),
    Char(char),
    Str(String),
    Bytes(Vec<u8>),
    /// No value present.
    NoneValue,
    /// A value present, recursively encoded.
    SomeValue(Scalar),
    Unit,
    /// A unit struct with the given type name.
    UnitStruct(String),
    /// A unit variant: declaring type name, numeric discriminant, variant name.
    UnitVariant(String, u32, String),
    /// A newtype struct wrapping one inner value.
    NewtypeStruct(String, Scalar),
    /// A newtype variant wrapping one inner value.
    NewtypeVariant(String, u32, String, Scalar),
    /// A single string-like value collected from a value's textual
    /// representation.
    CollectStr(String),
}

/// The consuming encoder protocol, as a transient implementor fulfils it:
/// each call takes the implementor by value, so it is used exactly once, and
/// leaves behind the resource it was manufactured from.
pub trait TransientSerializer: Sized {
    /// What a completed encoding produces.
    type Ok;

    /// The implementor's error type; the bridge passes it through unchanged.
    type Error;

    /// What the call leaves behind once the transient implementor is spent:
    /// the resource it borrowed, ready for the next call.
    type Rest;

    /// Which outcomes one single-call encode operation may produce from this
    /// implementor.  A deterministic implementor pins both components down.
    spec fn encode_post(
        &self,
        op: EncodeOp,
        r: Result<Self::Ok, Self::Error>,
        rest: Self::Rest,
    ) -> bool;

    /// Which outcomes beginning a sequence of the given expected length may
    /// produce from this implementor.
    spec fn begin_seq_post(
        &self,
        len: Option<usize>,
        r: Result<(), Self::Error>,
        rest: Self::Rest,
    ) -> bool;

    /// Perform one single-call encode operation.
    fn encode(self, op: EncodeOp) -> (out: (Result<Self::Ok, Self::Error>, Self::Rest))
        ensures
            self.encode_post(op, out.0, out.1),
    ;

    /// Begin a sequence of the given expected length.
    fn begin_seq(self, len: Option<usize>) -> (out: (Result<(), Self::Error>, Self::Rest))
        ensures
            self.begin_seq_post(len, out.0, out.1),
    ;
}

/// The sequence sub-protocol, as a transient sequence-writer fulfils it: a
/// writer is manufactured for exactly one call, either writing one element
/// or finishing the sequence, and leaves the resource behind.
pub trait TransientSerializeSeq: Sized {
    /// What finishing the sequence produces.
    type Ok;

    /// The implementor's error type; the bridge passes it through unchanged.
    type Error;

    /// What the call leaves behind once the transient writer is spent.
    type Rest;

    /// Which outcomes writing one element may produce from this writer.
    spec fn element_post(&self, v: Scalar, r: Result<(), Self::Error>, rest: Self::Rest) -> bool;

    /// Which outcomes finishing the sequence may produce from this writer.
    spec fn end_post(&self, r: Result<Self::Ok, Self::Error>, rest: Self::Rest) -> bool;

    /// Write the next element of the sequence.
    fn serialize_element(self, v: &Scalar) -> (out: (Result<(), Self::Error>, Self::Rest))
        ensures
            self.element_post(*v, out.0, out.1),
    ;

    /// Finish the sequence and produce the final result.
    fn end(self) -> (out: (Result<Self::Ok, Self::Error>, Self::Rest))
        ensures
            self.end_post(out.0, out.1),
    ;
}

/// The capability a resource must offer to be wrapped by the encode bridge:
/// manufacture a fresh transient encoder, or transient sequence-writer,
/// bound to a single call, and answer whether values are produced in
/// human-readable form.  The resource is lent to the transient implementor
/// for the call and comes back as the call's `Rest`.
pub trait AsTransientSerializer: Sized {
    /// What a completed encoding produces.
    type Ok;

    /// The resource's error type.
    type Error;

    /// The transient encoder this resource manufactures.
    type Transient: TransientSerializer<Ok = Self::Ok, Error = Self::Error, Rest = Self>;

    /// The transient sequence-writer this resource manufactures.
    type SeqTransient: TransientSerializeSeq<Ok = Self::Ok, Error = Self::Error, Rest = Self>;

    /// Which transient encoder manufacture yields from the current state.
    spec fn transient_spec(&self) -> Self::Transient;

    /// Which transient sequence-writer manufacture yields from the current
    /// state.
    spec fn seq_transient_spec(&self) -> Self::SeqTransient;

    /// Whether this resource produces values in human-readable form.  This is
    /// a characteristic of the resource's configuration, not of any single
    /// transient implementor.
    spec fn human_readable_spec(&self) -> bool;

    /// Manufacture a fresh transient encoder for exactly one call.
    fn as_transient_serializer(self) -> (t: Self::Transient)
        ensures
            t == self.transient_spec(),
    ;

    /// Manufacture a fresh transient sequence-writer for exactly one call.
    fn as_transient_serialize_seq(self) -> (t: Self::SeqTransient)
        ensures
            t == self.seq_transient_spec(),
    ;

    /// Whether values should be encoded in their human-readable form.
    fn is_human_readable(&self) -> (r: bool)
        ensures
            r == self.human_readable_spec(),
    ;
}

/// The encode bridge: a zero-overhead wrapper holding exactly one resource.
/// Every operation manufactures a transient encoder or sequence-writer from
/// the resource, forwards the single call to it verbatim, and hands the
/// released resource back.  Beginning a sequence returns the bridge itself
/// as the writer: each writer call repeats the manufacture-forward-discard
/// cycle rather than holding on to any transient implementor.
pub struct PersistentSerializer<S>(S);

impl<S> PersistentSerializer<S> {
    /// The wrapped resource.
    pub closed spec fn inner_spec(&self) -> S {
        self.0
    }

    /// Wraps the resource.  Zero-cost: the bridge has no other state.
    pub fn new(serializer: S) -> (bridge: Self)
        ensures
            bridge.inner_spec() == serializer,
    {
        PersistentSerializer(serializer)
    }

    /// Unwraps the bridge to reclaim the resource.
    pub fn into_inner(self) -> (serializer: S)
        ensures
            serializer == self.inner_spec(),
    {
        self.0
    }

    /// Borrows the wrapped resource.
    pub fn deref(&self) -> (serializer: &S)
        ensures
            *serializer == self.inner_spec(),
    {
        &self.0
    }
}

impl<S: AsTransientSerializer> PersistentSerializer<S> {
    /// The outcomes a bridged single-call encode operation admits: exactly
    /// those of one call on a transient encoder freshly manufactured from
    /// the wrapped resource's current state.
    pub open spec fn encode_post(
        self,
        op: EncodeOp,
        r: Result<S::Ok, S::Error>,
        rest: S,
    ) -> bool {
        self.inner_spec().transient_spec().encode_post(op, r, rest)
    }

    /// The outcomes a bridged begin-sequence call admits, the released
    /// resource standing re-wrapped in the returned writer.
    pub open spec fn begin_seq_post(
        self,
        len: Option<usize>,
        r: Result<(), S::Error>,
        writer: PersistentSerializer<S>,
    ) -> bool {
        self.inner_spec().transient_spec().begin_seq_post(len, r, writer.inner_spec())
    }

    /// The outcomes a bridged write-element call admits: exactly those of
    /// one call on a transient sequence-writer freshly manufactured from the
    /// wrapped resource's current state.
    pub open spec fn element_post(
        self,
        v: Scalar,
        r: Result<(), S::Error>,
        writer: PersistentSerializer<S>,
    ) -> bool {
        self.inner_spec().seq_transient_spec().element_post(v, r, writer.inner_spec())
    }

    /// The outcomes a bridged finish-sequence call admits.
    pub open spec fn end_post(self, r: Result<S::Ok, S::Error>, rest: S) -> bool {
        self.inner_spec().seq_transient_spec().end_post(r, rest)
    }

    /// What the bridge's human-readable query answers: the resource's own
    /// answer, nothing else.
    pub open spec fn human_readable_spec(self) -> bool {
        self.inner_spec().human_readable_spec()
    }

    /// One forwarded single-call encode operation: manufacture a transient
    /// encoder, forward the operation verbatim, return its result or error
    /// unchanged, and release the resource.
    pub fn encode(self, op: EncodeOp) -> (out: (Result<S::Ok, S::Error>, S))
        ensures
            self.encode_post(op, out.0, out.1),
    {
        let transient = self.0.as_transient_serializer();
        transient.encode(op)
    }

    pub fn serialize_bool(self, v: bool) -> (out: (Result<S::Ok, S::Error>, S))
        ensures
            self.encode_post(EncodeOp::Bool(v), out.0, out.1),
    {
        self.encode(EncodeOp::Bool(v))
    }

    pub fn serialize_i8(self, v: i8) -> (out: (Result<S::Ok, S::Error>, S))
        ensures
            self.encode_post(EncodeOp::I8(v), out.0, out.1),
    {
        self.encode(EncodeOp::I8(v))
    }

    pub fn serialize_i16(self, v: i16) -> (out: (Result<S::Ok, S::Error>, S))
        ensures
            self.encode_post(EncodeOp::I16(v), out.0, out.1),
    {
        self.encode(EncodeOp::I16(v))
    }

    pub fn serialize_i32(self, v: i32) -> (out: (Result<S::Ok, S::Error>, S))
        ensures
            self.encode_post(EncodeOp::I32(v), out.0, out.1),
    {
        self.encode(EncodeOp::I32(v))
    }

    pub fn serialize_i64(self, v: i64) -> (out: (Result<S::Ok, S::Error>, S))
        ensures
            self.encode_post(EncodeOp::I64(v), out.0, out.1),
    {
        self.encode(EncodeOp::I64(v))
    }

    pub fn serialize_i128(self, v: i128) -> (out: (Result<S::Ok, S::Error>, S))
        ensures
            self.encode_post(EncodeOp::I128(v), out.0, out.1),
    {
        self.encode(EncodeOp::I128(v))
    }

    pub fn serialize_u8(self, v: u8) -> (out: (Result<S::Ok, S::Error>, S))
        ensures
            self.encode_post(EncodeOp::U8(v), out.0, out.1),
    {
        self.encode(EncodeOp::U8(v))
    }

    pub fn serialize_u16(self, v: u16) -> (out: (Result<S::Ok, S::Error>, S))
        ensures
            self.encode_post(EncodeOp::U16(v), out.0, out.1),
    {
        self.encode(EncodeOp::U16(v))
    }

    pub fn serialize_u32(self, v: u32) -> (out: (Result<S::Ok, S::Error>, S))
        ensures
            self.encode_post(EncodeOp::U32(v), out.0, out.1),
    {
        self.encode(EncodeOp::U32(v))
    }

    pub fn serialize_u64(self, v: u64) -> (out: (Result<S::Ok, S::Error>, S))
        ensures
            self.encode_post(EncodeOp::U64(v), out.0, out.1),
    {
        self.encode(EncodeOp::U64(v))
    }

    pub fn serialize_u128(self, v: u128) -> (out: (Result<S::Ok, S::Error>, S))
        ensures
            self.encode_post(EncodeOp::U128(v), out.0, out.1),
    {
        self.encode(EncodeOp::U128(v))
    }

    pub fn serialize_char(self, v: char) -> (out: (Result<S::Ok, S::Error>, S))
        ensures
            self.encode_post(EncodeOp::Char(v), out.0, out.1),
    {
        self.encode(EncodeOp::Char(v))
    }

    pub fn serialize_str(self, v: String) -> (out: (Result<S::Ok, S::Error>, S))
        ensures
            self.encode_post(EncodeOp::Str(v), out.0, out.1),
    {
        self.encode(EncodeOp::Str(v))
    }

    pub fn serialize_bytes(self, v: Vec<u8>) -> (out: (Result<S::Ok, S::Error>, S))
        ensures
            self.encode_post(EncodeOp::Bytes(v), out.0, out.1),
    {
        self.encode(EncodeOp::Bytes(v))
    }

    pub fn serialize_none(self) -> (out: (Result<S::Ok, S::Error>, S))
        ensures
            self.encode_post(EncodeOp::NoneValue, out.0, out.1),
    {
        self.encode(EncodeOp::NoneValue)
    }

    pub fn serialize_some(self, value: Scalar) -> (out: (Result<S::Ok, S::Error>, S))
        ensures
            self.encode_post(EncodeOp::SomeValue(value), out.0, out.1),
    {
        self.encode(EncodeOp::SomeValue(value))
    }

    pub fn serialize_unit(self) -> (out: (Result<S::Ok, S::Error>, S))
        ensures
            self.encode_post(EncodeOp::Unit, out.0, out.1),
    {
        self.encode(EncodeOp::Unit)
    }

    pub fn serialize_unit_struct(self, name: String) -> (out: (Result<S::Ok, S::Error>, S))
        ensures
            self.encode_post(EncodeOp::UnitStruct(name), out.0, out.1),
    {
        self.encode(EncodeOp::UnitStruct(name))
    }

    pub fn serialize_unit_variant(
        self,
        name: String,
        variant_index: u32,
        variant: String,
    ) -> (out: (Result<S::Ok, S::Error>, S))
        ensures
            self.encode_post(EncodeOp::UnitVariant(name, variant_index, variant), out.0, out.1),
    {
        self.encode(EncodeOp::UnitVariant(name, variant_index, variant))
    }

    pub fn serialize_newtype_struct(self, name: String, value: Scalar) -> (out: (
        Result<S::Ok, S::Error>,
        S,
    ))
        ensures
            self.encode_post(EncodeOp::NewtypeStruct(name, value), out.0, out.1),
    {
        self.encode(EncodeOp::NewtypeStruct(name, value))
    }

    pub fn serialize_newtype_variant(
        self,
        name: String,
        variant_index: u32,
        variant: String,
        value: Scalar,
    ) -> (out: (Result<S::Ok, S::Error>, S))
        ensures
            self.encode_post(
                EncodeOp::NewtypeVariant(name, variant_index, variant, value),
                out.0,
                out.1,
            ),
    {
        self.encode(EncodeOp::NewtypeVariant(name, variant_index, variant, value))
    }

    pub fn collect_str(self, value: String) -> (out: (Result<S::Ok, S::Error>, S))
        ensures
            self.encode_post(EncodeOp::CollectStr(value), out.0, out.1),
    {
        self.encode(EncodeOp::CollectStr(value))
    }

    /// Begin a sequence of the given expected length.  The call is forwarded
    /// to a transient encoder; the writer handed back is the bridge itself,
    /// re-wrapping the released resource, never the transient implementor.
    pub fn serialize_seq(self, len: Option<usize>) -> (out: (
        Result<(), S::Error>,
        PersistentSerializer<S>,
    ))
        ensures
            self.begin_seq_post(len, out.0, out.1),
    {
        let transient = self.0.as_transient_serializer();
        let (r, rest) = transient.begin_seq(len);
        (r, PersistentSerializer(rest))
    }

    /// Write the next element of a begun sequence: manufacture a transient
    /// sequence-writer, forward the single call, and re-wrap the released
    /// resource as the writer for the next step.
    pub fn serialize_element(self, v: &Scalar) -> (out: (
        Result<(), S::Error>,
        PersistentSerializer<S>,
    ))
        ensures
            self.element_post(*v, out.0, out.1),
    {
        let transient = self.0.as_transient_serialize_seq();
        let (r, rest) = transient.serialize_element(v);
        (r, PersistentSerializer(rest))
    }

    /// Finish a begun sequence and produce the final result, releasing the
    /// resource.
    pub fn end(self) -> (out: (Result<S::Ok, S::Error>, S))
        ensures
            self.end_post(out.0, out.1),
    {
        let transient = self.0.as_transient_serialize_seq();
        transient.end()
    }

    /// Answer the human-readable query by asking the resource directly, not
    /// any transient implementor.
    pub fn is_human_readable(&self) -> (r: bool)
        ensures
            r == self.human_readable_spec(),
    {
        self.0.is_human_readable()
    }

    /// Encode a whole sequence through the bridge: begin a sequence of the
    /// elements' length, write each element in order, then finish.  Every
    /// step manufactures its own transient implementor, yet the run as a
    /// whole admits exactly the outcomes of driving the resource's
    /// transients directly through the same elements.
    pub fn collect_seq(self, elems: &Vec<Scalar>) -> (out: (Result<S::Ok, S::Error>, S))
        ensures
            seq_encode_post(
                self.inner_spec(),
                Some(elems@.len() as usize),
                elems@,
                out.0,
                out.1,
            ),
    {
        let ghost s_init = self.inner_spec();
        let ghost expected = Some(elems@.len() as usize);
        let len = elems.len();
        let (r0, writer) = self.serialize_seq(Some(len));
        let ghost s_begun = writer.inner_spec();
        let ghost r0_saved = r0;
        match r0 {
            Result::Err(e) => {
                proof {
                    assert(seq_encode_post(
                        s_init,
                        expected,
                        elems@,
                        Result::<S::Ok, S::Error>::Err(e),
                        s_begun,
                    ));
                }
                return (Result::Err(e), writer.into_inner());
            },
            Result::Ok(_) => {},
        }
        let mut writer = writer;
        let mut i: usize = 0;
        proof {
            assert(elems@.skip(0) =~= elems@);
        }
        while i < len
            invariant
                len == elems@.len(),
                i <= len,
                s_init == self.inner_spec(),
                expected == Some(elems@.len() as usize),
                r0_saved is Ok,
                s_init.transient_spec().begin_seq_post(expected, r0_saved, s_begun),
                forall|rw: Result<(), S::Error>, sf: S|
                    #[trigger] seq_write_post(
                        writer.inner_spec(),
                        elems@.skip(i as int),
                        rw,
                        sf,
                    ) ==> seq_write_post(s_begun, elems@, rw, sf),
            decreases len - i,
        {
            let ghost w_pre = writer.inner_spec();
            let (r, next) = writer.serialize_element(&elems[i]);
            proof {
                assert(elems@.skip(i as int)[0] == elems@[i as int]);
            }
            match r {
                Result::Err(e) => {
                    proof {
                        assert(seq_write_post(
                            w_pre,
                            elems@.skip(i as int),
                            Result::<(), S::Error>::Err(e),
                            next.inner_spec(),
                        ));
                        assert(seq_write_post(
                            s_begun,
                            elems@,
                            Result::<(), S::Error>::Err(e),
                            next.inner_spec(),
                        ));
                        assert(seq_encode_post(
                            s_init,
                            expected,
                            elems@,
                            Result::<S::Ok, S::Error>::Err(e),
                            next.inner_spec(),
                        ));
                    }
                    return (Result::Err(e), next.into_inner());
                },
                Result::Ok(_) => {},
            }
            proof {
                assert(elems@.skip(i as int).drop_first() =~= elems@.skip(i as int + 1));
                assert forall|rw: Result<(), S::Error>, sf: S|
                    #[trigger] seq_write_post(
                        next.inner_spec(),
                        elems@.skip(i as int + 1),
                        rw,
                        sf,
                    ) implies seq_write_post(s_begun, elems@, rw, sf) by {
                    assert(seq_write_post(w_pre, elems@.skip(i as int), rw, sf));
                }
            }
            writer = next;
            i = i + 1;
        }
        proof {
            assert(elems@.skip(len as int) =~= Seq::<Scalar>::empty());
            assert(seq_write_post(
                writer.inner_spec(),
                elems@.skip(len as int),
                Result::<(), S::Error>::Ok(()),
                writer.inner_spec(),
            ));
        }
        let ghost s_written = writer.inner_spec();
        let (r_end, rest) = writer.end();
        proof {
            assert(seq_write_post(s_begun, elems@, Result::<(), S::Error>::Ok(()), s_written));
            assert(seq_encode_post(s_init, expected, elems@, r_end, rest));
        }
        (r_end, rest)
    }
}

/// The outcomes that writing the given elements in order, each through a
/// freshly manufactured transient sequence-writer, may produce from the
/// given resource state.  The run stops at the first element that reports
/// an error.
pub open spec fn seq_write_post<S: AsTransientSerializer>(
    s: S,
    elems: Seq<Scalar>,
    r: Result<(), S::Error>,
    rest: S,
) -> bool
    decreases elems.len(),
{
    if elems.len() == 0 {
        r == Result::<(), S::Error>::Ok(()) && rest == s
    } else {
        exists|r1: Result<(), S::Error>, s1: S|
            #[trigger] s.seq_transient_spec().element_post(elems[0], r1, s1) && match r1 {
                Result::Err(e) => r == Result::<(), S::Error>::Err(e) && rest == s1,
                Result::Ok(_) => seq_write_post(s1, elems.drop_first(), r, rest),
            }
    }
}

/// The outcomes that a whole sequence encoding — begin with the given
/// expected length, write the elements in order, finish — may produce when
/// the resource's transient implementors are driven directly, one fresh
/// implementor per call.  This is the non-bridged reference run that the
/// bridge's `collect_seq` is held to.
pub open spec fn seq_encode_post<S: AsTransientSerializer>(
    s: S,
    len: Option<usize>,
    elems: Seq<Scalar>,
    r: Result<S::Ok, S::Error>,
    rest: S,
) -> bool {
    exists|r0: Result<(), S::Error>, s0: S|
        #[trigger] s.transient_spec().begin_seq_post(len, r0, s0) && match r0 {
            Result::Err(e) => r == Result::<S::Ok, S::Error>::Err(e) && rest == s0,
            Result::Ok(_) => exists|rw: Result<(), S::Error>, s1: S|
                #[trigger] seq_write_post(s0, elems, rw, s1) && match rw {
                    Result::Err(e) => r == Result::<S::Ok, S::Error>::Err(e) && rest == s1,
                    Result::Ok(_) => s1.seq_transient_spec().end_post(r, rest),
                },
        }
}

/// Drive the resource's transient implementors directly through a whole
/// sequence encoding, without any bridge in between: begin, write each
/// element, finish, manufacturing one fresh transient per call.  It meets
/// the same whole-run contract as the bridge's `collect_seq`; the sequence
/// sub-protocol round-trips through the bridge unchanged.
pub fn drive_seq_direct<S: AsTransientSerializer>(s: S, elems: &Vec<Scalar>) -> (out: (
    Result<S::Ok, S::Error>,
    S,
))
    ensures
        seq_encode_post(s, Some(elems@.len() as usize), elems@, out.0, out.1),
{
    let ghost s_init = s;
    let ghost expected = Some(elems@.len() as usize);
    let len = elems.len();
    let transient = s.as_transient_serializer();
    let (r0, begun) = transient.begin_seq(Some(len));
    let ghost s_begun = begun;
    let ghost r0_saved = r0;
    match r0 {
        Result::Err(e) => {
            proof {
                assert(seq_encode_post(
                    s_init,
                    expected,
                    elems@,
                    Result::<S::Ok, S::Error>::Err(e),
                    s_begun,
                ));
            }
            return (Result::Err(e), begun);
        },
        Result::Ok(_) => {},
    }
    let mut current = begun;
    let mut i: usize = 0;
    proof {
        assert(elems@.skip(0) =~= elems@);
    }
    while i < len
        invariant
            len == elems@.len(),
            i <= len,
            s_init == s,
            expected == Some(elems@.len() as usize),
            r0_saved is Ok,
            s_init.transient_spec().begin_seq_post(expected, r0_saved, s_begun),
            forall|rw: Result<(), S::Error>, sf: S|
                #[trigger] seq_write_post(current, elems@.skip(i as int), rw, sf)
                    ==> seq_write_post(s_begun, elems@, rw, sf),
        decreases len - i,
    {
        let ghost c_pre = current;
        let writer = current.as_transient_serialize_seq();
        let (r, next) = writer.serialize_element(&elems[i]);
        proof {
            assert(elems@.skip(i as int)[0] == elems@[i as int]);
        }
        match r {
            Result::Err(e) => {
                proof {
                    assert(seq_write_post(
                        c_pre,
                        elems@.skip(i as int),
                        Result::<(), S::Error>::Err(e),
                        next,
                    ));
                    assert(seq_write_post(
                        s_begun,
                        elems@,
                        Result::<(), S::Error>::Err(e),
                        next,
                    ));
                    assert(seq_encode_post(
                        s_init,
                        expected,
                        elems@,
                        Result::<S::Ok, S::Error>::Err(e),
                        next,
                    ));
                }
                return (Result::Err(e), next);
            },
            Result::Ok(_) => {},
        }
        proof {
            assert(elems@.skip(i as int).drop_first() =~= elems@.skip(i as int + 1));
            assert forall|rw: Result<(), S::Error>, sf: S|
                #[trigger] seq_write_post(next, elems@.skip(i as int + 1), rw, sf) implies
                seq_write_post(s_begun, elems@, rw, sf) by {
                assert(seq_write_post(c_pre, elems@.skip(i as int), rw, sf));
            }
        }
        current = next;
        i = i + 1;
    }
    proof {
        assert(elems@.skip(len as int) =~= Seq::<Scalar>::empty());
        assert(seq_write_post(
            current,
            elems@.skip(len as int),
            Result::<(), S::Error>::Ok(()),
            current,
        ));
    }
    let ghost s_written = current;
    let writer = current.as_transient_serialize_seq();
    let (r_end, rest) = writer.end();
    proof {
        assert(seq_write_post(s_begun, elems@, Result::<(), S::Error>::Ok(()), s_written));
        assert(seq_encode_post(s_init, expected, elems@, r_end, rest));
    }
    (r_end, rest)
}

/// Forwarding is exact: a bridged single-call encode operation admits
/// precisely the outcomes of one call on a transient encoder freshly
/// manufactured from the same resource state.
pub proof fn lemma_encode_bridge_matches_direct<S: AsTransientSerializer>(
    bridge: PersistentSerializer<S>,
    op: EncodeOp,
    r: Result<S::Ok, S::Error>,
    rest: S,
)
    ensures
        bridge.encode_post(op, r, rest) <==> bridge.inner_spec().transient_spec().encode_post(
            op,
            r,
            rest,
        ),
{
}

/// Forwarding is call-scoped on the encode side too: once a bridged call
/// has completed and released the resource, wrapping that resource again
/// admits exactly the outcomes of a fresh direct call on it.
pub proof fn lemma_encode_forwarding_call_scoped<S: AsTransientSerializer>(
    first: S,
    op1: EncodeOp,
    r1: Result<S::Ok, S::Error>,
    rest1: S,
    rewrapped: PersistentSerializer<S>,
    op2: EncodeOp,
    r2: Result<S::Ok, S::Error>,
    rest2: S,
)
    requires
        first.transient_spec().encode_post(op1, r1, rest1),
        rewrapped.inner_spec() == rest1,
    ensures
        rewrapped.encode_post(op2, r2, rest2) <==> rest1.transient_spec().encode_post(
            op2,
            r2,
            rest2,
        ),
{
}

/// The human-readable query is a function of the wrapped resource alone:
/// any bridge over a given resource state answers exactly what the resource
/// answers, whatever calls came before or follow.
pub proof fn lemma_encode_human_readable_matches_resource<S: AsTransientSerializer>(
    bridge: PersistentSerializer<S>,
    resource: S,
)
    requires
        bridge.inner_spec() == resource,
    ensures
        bridge.human_readable_spec() == resource.human_readable_spec(),
{
}

/// Error transparency: where the transient encoder's contract forces every
/// outcome of an operation to be one fixed error, the bridged call returns
/// exactly that error, not a wrapped one.
pub proof fn lemma_encode_error_transparency<S: AsTransientSerializer>(
    bridge: PersistentSerializer<S>,
    op: EncodeOp,
    r: Result<S::Ok, S::Error>,
    rest: S,
    e: S::Error,
)
    requires
        bridge.encode_post(op, r, rest),
        forall|r2: Result<S::Ok, S::Error>, rest2: S|
            bridge.inner_spec().transient_spec().encode_post(op, r2, rest2) ==> r2 == Err::<
                S::Ok,
                S::Error,
            >(e),
    ensures
        r == Err::<S::Ok, S::Error>(e),
{
}

} // verus!
