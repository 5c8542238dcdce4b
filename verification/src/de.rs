//! The decode bridge: implements the consuming decoder protocol for any
//! resource that can manufacture a transient decoder per call.

use vstd::prelude::*;

verus! {

/// One operation of the consuming decoder protocol, together with the
/// structural metadata the caller supplies for it.  The bridge forwards the
/// operation unchanged; no argument is inspected or transformed.
pub enum DecodeOp {
    /// Let the decoder pick the form it sees in the input.
    Any,
    Bool,
    I8,
    I16,
    I32,
    I64,
    I128,
    U8,
    U16,
    U32,
    U64,
    U128,
    F32,
    F64,
    Char,
    /// A borrowed string.
    Str,
    /// An owned string.
    StrBuf,
    /// A borrowed byte sequence.
    Bytes,
    /// An owned byte sequence.
    ByteBuf,
    /// An optional value.
    Optional,
    Unit,
    /// A unit struct with the given type name.
    UnitStruct(String),
    /// A newtype struct with the given type name.
    NewtypeStruct(String),
    /// A variable-length sequence.
    Sequence,
    /// A tuple of the given length.
    Tuple(usize),
    /// A tuple struct with the given type name and length.
    TupleStruct(String, usize),
    /// A key/value mapping.
    Mapping,
    /// A struct with the given type name and field names.
    Struct(String, Vec<String>),
    /// An enum with the given type name and variant names.
    Enum(String, Vec<String>),
    /// A field or variant identifier.
    Identifier,
    /// Decode and discard whatever value comes next.
    IgnoredAny,
}

/// The consuming decoder protocol, as a transient implementor fulfils it: the
/// single decode call takes the implementor by value, so it is used exactly
/// once, and leaves behind the resource it was manufactured from.
pub trait TransientDeserializer: Sized {
    /// What a successful decode produces.
    type Value;

    /// The implementor's error type; the bridge passes it through unchanged.
    type Error;

    /// What the call leaves behind once the transient implementor is spent:
    /// the resource it borrowed, ready for the next call.
    type Rest;

    /// Which outcomes (result and released resource) one decode call may
    /// produce from this implementor.  A deterministic implementor pins both
    /// down to single values.
    spec fn decode_post(
        &self,
        op: DecodeOp,
        r: Result<Self::Value, Self::Error>,
        rest: Self::Rest,
    ) -> bool;

    /// Perform the single decode call this implementor exists for.
    fn decode(self, op: DecodeOp) -> (out: (Result<Self::Value, Self::Error>, Self::Rest))
        ensures
            self.decode_post(op, out.0, out.1),
    ;
}

/// The capability a resource must offer to be wrapped by the decode bridge:
/// manufacture a fresh transient decoder bound to a single call, and answer
/// whether values arrive in human-readable form.  The resource is lent to the
/// transient implementor for the call and comes back as the call's `Rest`.
pub trait AsTransientDeserializer: Sized {
    /// What a successful decode produces.
    type Value;

    /// The resource's error type.
    type Error;

    /// The transient decoder this resource manufactures.
    type Transient: TransientDeserializer<Value = Self::Value, Error = Self::Error, Rest = Self>;

    /// Which transient decoder manufacture yields from the current state.
    spec fn transient_spec(&self) -> Self::Transient;

    /// Whether this resource produces values in human-readable form.  This is
    /// a characteristic of the resource's configuration, not of any single
    /// transient implementor.
    spec fn human_readable_spec(&self) -> bool;

    /// Manufacture a fresh transient decoder for exactly one call.
    fn as_transient_deserializer(self) -> (t: Self::Transient)
        ensures
            t == self.transient_spec(),
    ;

    /// Whether values should be decoded from their human-readable form.
    fn is_human_readable(&self) -> (r: bool)
        ensures
            r == self.human_readable_spec(),
    ;
}

/// The decode bridge: a zero-overhead wrapper holding exactly one resource.
/// It implements every decode operation by manufacturing a transient decoder
/// from the resource, forwarding the single call to it verbatim, and handing
/// the released resource back when the call returns.
pub struct PersistentDeserializer<D>(D);

impl<D> PersistentDeserializer<D> {
    /// The wrapped resource.
    pub closed spec fn inner_spec(&self) -> D {
        self.0
    }

    /// Wraps the resource.  Zero-cost: the bridge has no other state.
    pub fn new(deserializer: D) -> (bridge: Self)
        ensures
            bridge.inner_spec() == deserializer,
    {
        PersistentDeserializer(deserializer)
    }

    /// Unwraps the bridge to reclaim the resource.
    pub fn into_inner(self) -> (deserializer: D)
        ensures
            deserializer == self.inner_spec(),
    {
        self.0
    }

    /// Borrows the wrapped resource.
    pub fn deref(&self) -> (deserializer: &D)
        ensures
            *deserializer == self.inner_spec(),
    {
        &self.0
    }
}

impl<D: AsTransientDeserializer> PersistentDeserializer<D> {
    /// The outcomes a bridged decode call admits: exactly those of one call
    /// on a transient decoder freshly manufactured from the wrapped
    /// resource's current state.
    pub open spec fn decode_post(
        self,
        op: DecodeOp,
        r: Result<D::Value, D::Error>,
        rest: D,
    ) -> bool {
        self.inner_spec().transient_spec().decode_post(op, r, rest)
    }

    /// What the bridge's human-readable query answers: the resource's own
    /// answer, nothing else.
    pub open spec fn human_readable_spec(self) -> bool {
        self.inner_spec().human_readable_spec()
    }

    /// One forwarded decode call: manufacture a transient decoder, forward
    /// the operation verbatim, return its result or error unchanged, and
    /// release the resource.
    pub fn decode(self, op: DecodeOp) -> (out: (Result<D::Value, D::Error>, D))
        ensures
            self.decode_post(op, out.0, out.1),
    {
        let transient = self.0.as_transient_deserializer();
        transient.decode(op)
    }

    pub fn deserialize_any(self) -> (out: (Result<D::Value, D::Error>, D))
        ensures
            self.decode_post(DecodeOp::Any, out.0, out.1),
    {
        self.decode(DecodeOp::Any)
    }

    pub fn deserialize_bool(self) -> (out: (Result<D::Value, D::Error>, D))
        ensures
            self.decode_post(DecodeOp::Bool, out.0, out.1),
    {
        self.decode(DecodeOp::Bool)
    }

    pub fn deserialize_i8(self) -> (out: (Result<D::Value, D::Error>, D))
        ensures
            self.decode_post(DecodeOp::I8, out.0, out.1),
    {
        self.decode(DecodeOp::I8)
    }

    pub fn deserialize_i16(self) -> (out: (Result<D::Value, D::Error>, D))
        ensures
            self.decode_post(DecodeOp::I16, out.0, out.1),
    {
        self.decode(DecodeOp::I16)
    }

    pub fn deserialize_i32(self) -> (out: (Result<D::Value, D::Error>, D))
        ensures
            self.decode_post(DecodeOp::I32, out.0, out.1),
    {
        self.decode(DecodeOp::I32)
    }

    pub fn deserialize_i64(self) -> (out: (Result<D::Value, D::Error>, D))
        ensures
            self.decode_post(DecodeOp::I64, out.0, out.1),
    {
        self.decode(DecodeOp::I64)
    }

    pub fn deserialize_i128(self) -> (out: (Result<D::Value, D::Error>, D))
        ensures
            self.decode_post(DecodeOp::I128, out.0, out.1),
    {
        self.decode(DecodeOp::I128)
    }

    pub fn deserialize_u8(self) -> (out: (Result<D::Value, D::Error>, D))
        ensures
            self.decode_post(DecodeOp::U8, out.0, out.1),
    {
        self.decode(DecodeOp::U8)
    }

    pub fn deserialize_u16(self) -> (out: (Result<D::Value, D::Error>, D))
        ensures
            self.decode_post(DecodeOp::U16, out.0, out.1),
    {
        self.decode(DecodeOp::U16)
    }

    pub fn deserialize_u32(self) -> (out: (Result<D::Value, D::Error>, D))
        ensures
            self.decode_post(DecodeOp::U32, out.0, out.1),
    {
        self.decode(DecodeOp::U32)
    }

    pub fn deserialize_u64(self) -> (out: (Result<D::Value, D::Error>, D))
        ensures
            self.decode_post(DecodeOp::U64, out.0, out.1),
    {
        self.decode(DecodeOp::U64)
    }

    pub fn deserialize_u128(self) -> (out: (Result<D::Value, D::Error>, D))
        ensures
            self.decode_post(DecodeOp::U128, out.0, out.1),
    {
        self.decode(DecodeOp::U128)
    }

    pub fn deserialize_f32(self) -> (out: (Result<D::Value, D::Error>, D))
        ensures
            self.decode_post(DecodeOp::F32, out.0, out.1),
    {
        self.decode(DecodeOp::F32)
    }

    pub fn deserialize_f64(self) -> (out: (Result<D::Value, D::Error>, D))
        ensures
            self.decode_post(DecodeOp::F64, out.0, out.1),
    {
        self.decode(DecodeOp::F64)
    }

    pub fn deserialize_char(self) -> (out: (Result<D::Value, D::Error>, D))
        ensures
            self.decode_post(DecodeOp::Char, out.0, out.1),
    {
        self.decode(DecodeOp::Char)
    }

    pub fn deserialize_str(self) -> (out: (Result<D::Value, D::Error>, D))
        ensures
            self.decode_post(DecodeOp::Str, out.0, out.1),
    {
        self.decode(DecodeOp::Str)
    }

    pub fn deserialize_string(self) -> (out: (Result<D::Value, D::Error>, D))
        ensures
            self.decode_post(DecodeOp::StrBuf, out.0, out.1),
    {
        self.decode(DecodeOp::StrBuf)
    }

    pub fn deserialize_bytes(self) -> (out: (Result<D::Value, D::Error>, D))
        ensures
            self.decode_post(DecodeOp::Bytes, out.0, out.1),
    {
        self.decode(DecodeOp::Bytes)
    }

    pub fn deserialize_byte_buf(self) -> (out: (Result<D::Value, D::Error>, D))
        ensures
            self.decode_post(DecodeOp::ByteBuf, out.0, out.1),
    {
        self.decode(DecodeOp::ByteBuf)
    }

    pub fn deserialize_option(self) -> (out: (Result<D::Value, D::Error>, D))
        ensures
            self.decode_post(DecodeOp::Optional, out.0, out.1),
    {
        self.decode(DecodeOp::Optional)
    }

    pub fn deserialize_unit(self) -> (out: (Result<D::Value, D::Error>, D))
        ensures
            self.decode_post(DecodeOp::Unit, out.0, out.1),
    {
        self.decode(DecodeOp::Unit)
    }

    pub fn deserialize_unit_struct(self, name: String) -> (out: (Result<D::Value, D::Error>, D))
        ensures
            self.decode_post(DecodeOp::UnitStruct(name), out.0, out.1),
    {
        self.decode(DecodeOp::UnitStruct(name))
    }

    pub fn deserialize_newtype_struct(self, name: String) -> (out: (
        Result<D::Value, D::Error>,
        D,
    ))
        ensures
            self.decode_post(DecodeOp::NewtypeStruct(name), out.0, out.1),
    {
        self.decode(DecodeOp::NewtypeStruct(name))
    }

    pub fn deserialize_seq(self) -> (out: (Result<D::Value, D::Error>, D))
        ensures
            self.decode_post(DecodeOp::Sequence, out.0, out.1),
    {
        self.decode(DecodeOp::Sequence)
    }

    pub fn deserialize_tuple(self, len: usize) -> (out: (Result<D::Value, D::Error>, D))
        ensures
            self.decode_post(DecodeOp::Tuple(len), out.0, out.1),
    {
        self.decode(DecodeOp::Tuple(len))
    }

    pub fn deserialize_tuple_struct(self, name: String, len: usize) -> (out: (
        Result<D::Value, D::Error>,
        D,
    ))
        ensures
            self.decode_post(DecodeOp::TupleStruct(name, len), out.0, out.1),
    {
        self.decode(DecodeOp::TupleStruct(name, len))
    }

    pub fn deserialize_map(self) -> (out: (Result<D::Value, D::Error>, D))
        ensures
            self.decode_post(DecodeOp::Mapping, out.0, out.1),
    {
        self.decode(DecodeOp::Mapping)
    }

    pub fn deserialize_struct(self, name: String, fields: Vec<String>) -> (out: (
        Result<D::Value, D::Error>,
        D,
    ))
        ensures
            self.decode_post(DecodeOp::Struct(name, fields), out.0, out.1),
    {
        self.decode(DecodeOp::Struct(name, fields))
    }

    pub fn deserialize_enum(self, name: String, variants: Vec<String>) -> (out: (
        Result<D::Value, D::Error>,
        D,
    ))
        ensures
            self.decode_post(DecodeOp::Enum(name, variants), out.0, out.1),
    {
        self.decode(DecodeOp::Enum(name, variants))
    }

    pub fn deserialize_identifier(self) -> (out: (Result<D::Value, D::Error>, D))
        ensures
            self.decode_post(DecodeOp::Identifier, out.0, out.1),
    {
        self.decode(DecodeOp::Identifier)
    }

    pub fn deserialize_ignored_any(self) -> (out: (Result<D::Value, D::Error>, D))
        ensures
            self.decode_post(DecodeOp::IgnoredAny, out.0, out.1),
    {
        self.decode(DecodeOp::IgnoredAny)
    }

    /// Answer the human-readable query by asking the resource directly, not
    /// any transient implementor.
    pub fn is_human_readable(&self) -> (r: bool)
        ensures
            r == self.human_readable_spec(),
    {
        self.0.is_human_readable()
    }
}

/// Forwarding is exact: a bridged decode call admits precisely the outcomes
/// of one call on a transient decoder freshly manufactured from the same
/// resource state.
pub proof fn lemma_decode_bridge_matches_direct<D: AsTransientDeserializer>(
    bridge: PersistentDeserializer<D>,
    op: DecodeOp,
    r: Result<D::Value, D::Error>,
    rest: D,
)
    ensures
        bridge.decode_post(op, r, rest) <==> bridge.inner_spec().transient_spec().decode_post(
            op,
            r,
            rest,
        ),
{
}

/// Forwarding is call-scoped: once a bridged call has completed and released
/// the resource, wrapping that resource again admits exactly the outcomes of
/// a fresh direct call on it.  No state flows between calls other than what
/// the resource itself carries.
pub proof fn lemma_decode_forwarding_call_scoped<D: AsTransientDeserializer>(
    first: D,
    op1: DecodeOp,
    r1: Result<D::Value, D::Error>,
    rest1: D,
    rewrapped: PersistentDeserializer<D>,
    op2: DecodeOp,
    r2: Result<D::Value, D::Error>,
    rest2: D,
)
    requires
        first.transient_spec().decode_post(op1, r1, rest1),
        rewrapped.inner_spec() == rest1,
    ensures
        rewrapped.decode_post(op2, r2, rest2) <==> rest1.transient_spec().decode_post(
            op2,
            r2,
            rest2,
        ),
{
}

/// The human-readable query is a function of the wrapped resource alone:
/// any bridge over a given resource state answers exactly what the resource
/// answers, whatever calls came before or follow.
pub proof fn lemma_human_readable_matches_resource<D: AsTransientDeserializer>(
    bridge: PersistentDeserializer<D>,
    resource: D,
)
    requires
        bridge.inner_spec() == resource,
    ensures
        bridge.human_readable_spec() == resource.human_readable_spec(),
{
}

/// Error transparency: where the transient decoder's contract forces every
/// outcome of an operation to be one fixed error, the bridged call returns
/// exactly that error, not a wrapped one.
pub proof fn lemma_decode_error_transparency<D: AsTransientDeserializer>(
    bridge: PersistentDeserializer<D>,
    op: DecodeOp,
    r: Result<D::Value, D::Error>,
    rest: D,
    e: D::Error,
)
    requires
        bridge.decode_post(op, r, rest),
        forall|r2: Result<D::Value, D::Error>, rest2: D|
            bridge.inner_spec().transient_spec().decode_post(op, r2, rest2) ==> r2 == Err::<
                D::Value,
                D::Error,
            >(e),
    ensures
        r == Err::<D::Value, D::Error>(e),
{
}

} // verus!
