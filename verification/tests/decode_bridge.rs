use transient_bridge::de::AsTransientDeserializer;
use transient_bridge::de::DecodeOp;
use transient_bridge::de::PersistentDeserializer;
use transient_bridge::de::TransientDeserializer;
use transient_bridge::stream::NumberStream;
use transient_bridge::stream::StreamError;
use transient_bridge::stream::StreamValue;

fn stream(items: Vec<u64>) -> NumberStream {
    NumberStream::new(items, true)
}

#[test]
fn bridged_read_matches_direct_read() {
    let bridged = stream(vec![7, 8]);
    let direct = stream(vec![7, 8]);

    let (r_bridged, rest_bridged) = PersistentDeserializer::new(bridged).deserialize_u64();
    let (r_direct, rest_direct) = direct.as_transient_deserializer().decode(DecodeOp::U64);

    assert_eq!(r_bridged, r_direct);
    assert_eq!(r_bridged, Ok(StreamValue::Number(7)));
    assert_eq!(rest_bridged.pos, rest_direct.pos);
    assert_eq!(rest_bridged.pos, 1);
}

#[test]
fn bridged_any_matches_direct_any() {
    let bridged = stream(vec![42]);
    let direct = stream(vec![42]);

    let (r_bridged, _) = PersistentDeserializer::new(bridged).deserialize_any();
    let (r_direct, _) = direct.as_transient_deserializer().decode(DecodeOp::Any);

    assert_eq!(r_bridged, r_direct);
    assert_eq!(r_bridged, Ok(StreamValue::Number(42)));
}

#[test]
fn forwarding_is_call_scoped() {
    // After each completed call the released resource can manufacture a
    // fresh transient decoder; nothing carries over but the cursor the
    // resource itself persists.
    let s = stream(vec![1, 2]);
    let (r1, rest1) = PersistentDeserializer::new(s).deserialize_u64();
    assert_eq!(r1, Ok(StreamValue::Number(1)));
    assert_eq!(rest1.pos, 1);

    let (r2, rest2) = PersistentDeserializer::new(rest1).deserialize_u64();
    assert_eq!(r2, Ok(StreamValue::Number(2)));
    assert_eq!(rest2.pos, 2);

    let (r3, _) = PersistentDeserializer::new(rest2).deserialize_u64();
    assert_eq!(r3, Err(StreamError::EndOfInput));
}

#[test]
fn human_readable_matches_resource() {
    let readable = NumberStream::new(vec![1], true);
    let bridge = PersistentDeserializer::new(readable);
    assert!(bridge.is_human_readable());

    let binary = NumberStream::new(vec![1], false);
    let bridge = PersistentDeserializer::new(binary);
    assert!(!bridge.is_human_readable());

    // The answer does not depend on any prior decode call.
    let (_, rest) = bridge.deserialize_u64();
    assert!(!rest.is_human_readable());
    assert!(!PersistentDeserializer::new(rest).is_human_readable());
}

#[test]
fn error_passes_through_unchanged() {
    let bridged = stream(vec![]);
    let direct = stream(vec![]);

    let (r_bridged, _) = PersistentDeserializer::new(bridged).deserialize_u64();
    let (r_direct, _) = direct.as_transient_deserializer().decode(DecodeOp::U64);

    assert_eq!(r_bridged, Err(StreamError::EndOfInput));
    assert_eq!(r_bridged, r_direct);
}

#[test]
fn unsupported_operation_error_passes_through() {
    let bridged = stream(vec![5]);
    let direct = stream(vec![5]);

    let (r_bridged, rest) = PersistentDeserializer::new(bridged).deserialize_bool();
    let (r_direct, _) = direct.as_transient_deserializer().decode(DecodeOp::Bool);

    assert_eq!(r_bridged, Err(StreamError::Unsupported));
    assert_eq!(r_bridged, r_direct);
    // A failed operation consumed nothing.
    assert_eq!(rest.pos, 0);
}

#[test]
fn structural_operations_forward_their_metadata() {
    let s = stream(vec![5]);
    let (r, rest) = PersistentDeserializer::new(s)
        .deserialize_struct("Point".to_string(), vec!["x".to_string(), "y".to_string()]);
    assert_eq!(r, Err(StreamError::Unsupported));

    let (r, rest) = PersistentDeserializer::new(rest).deserialize_tuple(2);
    assert_eq!(r, Err(StreamError::Unsupported));

    let (r, _) = PersistentDeserializer::new(rest).deserialize_string();
    assert_eq!(r, Err(StreamError::Unsupported));
}

#[test]
fn decode_sequence_of_integers() {
    // Wrap a resource reading the literal run 1, 2, 3 and decode it as a
    // sequence of integers through the bridge.
    let s = stream(vec![1, 2, 3]);

    let (begin, mut rest) = PersistentDeserializer::new(s).deserialize_seq();
    let remaining = match begin {
        Ok(StreamValue::Count(n)) => n,
        other => panic!("beginning the sequence answered {:?}", other),
    };
    assert_eq!(remaining, 3);

    let mut decoded: Vec<u64> = Vec::new();
    for _ in 0..remaining {
        let (r, next) = PersistentDeserializer::new(rest).deserialize_u64();
        match r {
            Ok(StreamValue::Number(n)) => decoded.push(n),
            other => panic!("reading an element answered {:?}", other),
        }
        rest = next;
    }

    assert_eq!(decoded, vec![1, 2, 3]);
}

#[test]
fn new_and_into_inner_round_trip() {
    let s = NumberStream::new(vec![9], true);
    let bridge = PersistentDeserializer::new(s);
    assert_eq!(bridge.deref().pos, 0);
    let back = bridge.into_inner();
    assert_eq!(back.items, vec![9]);
    assert_eq!(back.pos, 0);
    assert!(back.readable);
}
