use serde_struct_compact::encoding::{decode_record, encode_record, DecodeError, Value};

fn text(x: &str) -> Value {
    Value::Text(x.to_string())
}

#[test]
fn basic_record_encodes_as_four_element_tuple() {
    // record {name: "Galileo", age: 456, alive: false, friends: ["Cigoli", "Castelli"]}
    let fields = vec![
        text("Galileo"),
        Value::UInt(456),
        Value::Bool(false),
        Value::List(vec![text("Cigoli"), text("Castelli")]),
    ];
    let encoded = encode_record(fields);
    assert_eq!(
        encoded,
        Value::Tuple(vec![
            text("Galileo"),
            Value::UInt(456),
            Value::Bool(false),
            Value::List(vec![text("Cigoli"), text("Castelli")]),
        ])
    );

    let decoded = decode_record(4, encoded).unwrap();
    assert_eq!(decoded.len(), 4);
    assert_eq!(decoded[0], text("Galileo"));
    assert_eq!(decoded[1], Value::UInt(456));
    assert_eq!(decoded[2], Value::Bool(false));
    assert_eq!(
        decoded[3],
        Value::List(vec![text("Cigoli"), text("Castelli")])
    );
}

#[test]
fn nested_shapes_encode_in_field_order() {
    // record {unit: (), array: [42, 43, 44], opti: Some(large), optf: None, tup: (45, 1.5e100)}
    let large: i64 = 0x7FFF_0000_FFFF_0000;
    let fields = vec![
        Value::Unit,
        Value::Tuple(vec![Value::UInt(42), Value::UInt(43), Value::UInt(44)]),
        Value::Present(Box::new(Value::Int(large))),
        Value::Absent,
        Value::Tuple(vec![
            Value::UInt(45),
            Value::FloatBits(1.5e100f64.to_bits()),
        ]),
    ];
    let encoded = encode_record(fields);
    match &encoded {
        Value::Tuple(es) => {
            assert_eq!(es.len(), 5);
            assert_eq!(es[0], Value::Unit);
            assert_eq!(
                es[1],
                Value::Tuple(vec![Value::UInt(42), Value::UInt(43), Value::UInt(44)])
            );
            assert_eq!(es[2], Value::Present(Box::new(Value::Int(large))));
            assert_eq!(es[3], Value::Absent);
            assert_eq!(
                es[4],
                Value::Tuple(vec![
                    Value::UInt(45),
                    Value::FloatBits(1.5e100f64.to_bits()),
                ])
            );
        }
        other => panic!("expected a tuple, got {:?}", other),
    }

    let decoded = decode_record(5, encoded).unwrap();
    assert_eq!(decoded[2], Value::Present(Box::new(Value::Int(large))));
    assert_eq!(decoded[3], Value::Absent);
}

#[test]
fn borrowed_views_encode_like_owned_values() {
    // record {strref: "hello", slice: [45, 46]}: a view-only record still
    // has a well-defined compact encoding on the serialize side.
    let fields = vec![
        text("hello"),
        Value::List(vec![Value::UInt(45), Value::UInt(46)]),
    ];
    let encoded = encode_record(fields);
    assert_eq!(
        encoded,
        Value::Tuple(vec![
            text("hello"),
            Value::List(vec![Value::UInt(45), Value::UInt(46)]),
        ])
    );
}

#[test]
fn round_trip_restores_field_values() {
    let fields = vec![text("Galileo"), Value::UInt(456)];
    let decoded = decode_record(2, encode_record(fields)).unwrap();
    assert_eq!(decoded, vec![text("Galileo"), Value::UInt(456)]);
}

#[test]
fn empty_record_round_trips() {
    let encoded = encode_record(Vec::new());
    assert_eq!(encoded, Value::Tuple(Vec::new()));
    assert_eq!(decode_record(0, encoded).unwrap(), Vec::new());
}

#[test]
fn short_tuple_is_rejected() {
    let encoded = encode_record(vec![Value::UInt(1), Value::UInt(2)]);
    assert_eq!(
        decode_record(3, encoded).unwrap_err(),
        DecodeError::WrongLength {
            expected: 3,
            found: 2
        }
    );
}

#[test]
fn long_tuple_is_rejected() {
    let encoded = encode_record(vec![Value::UInt(1), Value::UInt(2), Value::UInt(3)]);
    assert_eq!(
        decode_record(2, encoded).unwrap_err(),
        DecodeError::WrongLength {
            expected: 2,
            found: 3
        }
    );
}

#[test]
fn non_tuple_input_is_rejected() {
    assert_eq!(
        decode_record(1, Value::Bool(true)).unwrap_err(),
        DecodeError::NotATuple
    );
    assert_eq!(
        decode_record(0, Value::List(Vec::new())).unwrap_err(),
        DecodeError::NotATuple
    );
}
