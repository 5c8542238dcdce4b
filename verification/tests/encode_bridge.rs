use transient_bridge::ser::drive_seq_direct;
use transient_bridge::ser::AsTransientSerializer;
use transient_bridge::ser::EncodeOp;
use transient_bridge::ser::PersistentSerializer;
use transient_bridge::ser::Scalar;
use transient_bridge::ser::TransientSerializer;
use transient_bridge::text::TextError;
use transient_bridge::text::TextSink;

#[test]
fn encoding_bool_matches_direct_encoder() {
    // Wrap a resource whose transient encoder writes scalars as text:
    // encoding `true` through the bridge produces the same output as
    // encoding it directly against the transient encoder.
    let bridged = TextSink::new(true);
    let direct = TextSink::new(true);

    let (r_bridged, out_bridged) = PersistentSerializer::new(bridged).serialize_bool(true);
    let (r_direct, out_direct) = direct.as_transient_serializer().encode(EncodeOp::Bool(true));

    assert_eq!(r_bridged, Ok(()));
    assert_eq!(r_direct, Ok(()));
    assert_eq!(out_bridged.out, out_direct.out);
    assert_eq!(out_bridged.out, "true");
}

#[test]
fn encoding_false_and_unit_write_their_text() {
    let sink = TextSink::new(true);
    let (r, sink) = PersistentSerializer::new(sink).serialize_bool(false);
    assert_eq!(r, Ok(()));
    let (r, sink) = PersistentSerializer::new(sink).serialize_unit();
    assert_eq!(r, Ok(()));
    assert_eq!(sink.out, "false()");
}

#[test]
fn encoding_strings_passes_text_through() {
    let sink = TextSink::new(true);
    let (r, sink) = PersistentSerializer::new(sink).serialize_str("hi".to_string());
    assert_eq!(r, Ok(()));
    let (r, sink) = PersistentSerializer::new(sink).collect_str("!".to_string());
    assert_eq!(r, Ok(()));
    assert_eq!(sink.out, "hi!");
}

#[test]
fn unsupported_scalar_error_passes_through() {
    let bridged = TextSink::new(true);
    let direct = TextSink::new(true);

    let (r_bridged, out_bridged) = PersistentSerializer::new(bridged).serialize_u64(5);
    let (r_direct, out_direct) = direct.as_transient_serializer().encode(EncodeOp::U64(5));

    assert_eq!(r_bridged, Err(TextError::Unsupported));
    assert_eq!(r_bridged, r_direct);
    // A failed operation wrote nothing.
    assert_eq!(out_bridged.out, "");
    assert_eq!(out_bridged.out, out_direct.out);
}

#[test]
fn encode_human_readable_matches_resource() {
    let bridge = PersistentSerializer::new(TextSink::new(true));
    assert!(bridge.is_human_readable());

    let bridge = PersistentSerializer::new(TextSink::new(false));
    assert!(!bridge.is_human_readable());

    // The answer does not depend on any prior encode call.
    let (_, sink) = bridge.serialize_bool(true);
    assert!(!sink.is_human_readable());
    assert!(!PersistentSerializer::new(sink).is_human_readable());
}

#[test]
fn sequence_writer_is_the_bridge_itself() {
    // Beginning a sequence hands back the bridge re-wrapping the released
    // resource; each writer call manufactures its own transient writer.
    let sink = TextSink::new(true);
    let (begin, writer) = PersistentSerializer::new(sink).serialize_seq(Some(2));
    assert_eq!(begin, Ok(()));

    let (r, writer) = writer.serialize_element(&Scalar::Bool(true));
    assert_eq!(r, Ok(()));
    let (r, writer) = writer.serialize_element(&Scalar::Bool(false));
    assert_eq!(r, Ok(()));
    let (r, sink) = writer.end();
    assert_eq!(r, Ok(()));

    assert_eq!(sink.out, "[true,false,]");
}

#[test]
fn bridged_sequence_matches_direct_drive() {
    // Begin, write every element, finish: the bridged run and the direct
    // per-call drive of the resource's transients produce identical output.
    let elems = vec![
        Scalar::Bool(true),
        Scalar::Text("mid".to_string()),
        Scalar::Bool(false),
    ];

    let (r_bridged, out_bridged) =
        PersistentSerializer::new(TextSink::new(true)).collect_seq(&elems);
    let (r_direct, out_direct) = drive_seq_direct(TextSink::new(true), &elems);

    assert_eq!(r_bridged, Ok(()));
    assert_eq!(r_direct, Ok(()));
    assert_eq!(out_bridged.out, out_direct.out);
    assert_eq!(out_bridged.out, "[true,mid,false,]");
}

#[test]
fn empty_sequence_round_trips() {
    let elems: Vec<Scalar> = Vec::new();
    let (r_bridged, out_bridged) =
        PersistentSerializer::new(TextSink::new(true)).collect_seq(&elems);
    let (r_direct, out_direct) = drive_seq_direct(TextSink::new(true), &elems);
    assert_eq!(r_bridged, Ok(()));
    assert_eq!(r_direct, Ok(()));
    assert_eq!(out_bridged.out, out_direct.out);
    assert_eq!(out_bridged.out, "[]");
}

#[test]
fn sequence_stops_at_first_unsupported_element() {
    let elems = vec![Scalar::Bool(true), Scalar::U8(1), Scalar::Bool(false)];

    let (r_bridged, out_bridged) =
        PersistentSerializer::new(TextSink::new(true)).collect_seq(&elems);
    let (r_direct, out_direct) = drive_seq_direct(TextSink::new(true), &elems);

    assert_eq!(r_bridged, Err(TextError::Unsupported));
    assert_eq!(r_bridged, r_direct);
    assert_eq!(out_bridged.out, out_direct.out);
    assert_eq!(out_bridged.out, "[true,");
}

#[test]
fn scalar_operations_forward_their_arguments() {
    // Operations the sink has no textual form for still reach the transient
    // encoder with their arguments intact and report its answer.
    let sink = TextSink::new(true);
    let (r, sink) = PersistentSerializer::new(sink).serialize_unit_variant(
        "Direction".to_string(),
        1,
        "North".to_string(),
    );
    assert_eq!(r, Err(TextError::Unsupported));

    let (r, sink) = PersistentSerializer::new(sink)
        .serialize_newtype_struct("Meters".to_string(), Scalar::U32(5));
    assert_eq!(r, Err(TextError::Unsupported));

    let (r, sink) = PersistentSerializer::new(sink).serialize_none();
    assert_eq!(r, Err(TextError::Unsupported));

    assert_eq!(sink.out, "");
}

#[test]
fn encode_new_and_into_inner_round_trip() {
    let bridge = PersistentSerializer::new(TextSink::new(true));
    assert_eq!(bridge.deref().out, "");
    let sink = bridge.into_inner();
    assert_eq!(sink.out, "");
    assert!(sink.readable);
}
