use stream_session::codec::{from_broker, render_uuid, to_broker, DoubleValue, DynamicValue, PropertyValue};
use stream_session::error::SessionError;

fn round_trips(v: DynamicValue) -> DynamicValue {
    let p = to_broker(v).expect("to_broker");
    from_broker(p).expect("from_broker")
}

#[test]
fn round_trip_empty() {
    assert!(matches!(round_trips(DynamicValue::Empty), DynamicValue::Empty));
}

#[test]
fn round_trip_bool() {
    assert!(matches!(round_trips(DynamicValue::Bool(true)), DynamicValue::Bool(true)));
    assert!(matches!(round_trips(DynamicValue::Bool(false)), DynamicValue::Bool(false)));
}

#[test]
fn round_trip_int() {
    assert!(matches!(round_trips(DynamicValue::Int(-12345)), DynamicValue::Int(-12345)));
    assert!(matches!(round_trips(DynamicValue::Int(i32::MAX)), DynamicValue::Int(i32::MAX)));
}

#[test]
fn round_trip_double_bits() {
    let bits = 1.25f64.to_bits();
    match round_trips(DynamicValue::Double(DoubleValue::Bits(bits))) {
        DynamicValue::Double(DoubleValue::Bits(b)) => {
            assert_eq!(f64::from_bits(b), 1.25);
        }
        other => panic!("unexpected value: {:?}", other),
    }
}

#[test]
fn round_trip_date() {
    assert!(matches!(
        round_trips(DynamicValue::Date(1700000000123)),
        DynamicValue::Date(1700000000123)
    ));
}

#[test]
fn round_trip_str() {
    match round_trips(DynamicValue::Str(String::from("hello"))) {
        DynamicValue::Str(s) => assert_eq!(s, "hello"),
        other => panic!("unexpected value: {:?}", other),
    }
}

#[test]
fn round_trip_blob() {
    match round_trips(DynamicValue::Blob(vec![1, 2, 3, 255])) {
        DynamicValue::Blob(b) => assert_eq!(b, vec![1, 2, 3, 255]),
        other => panic!("unexpected value: {:?}", other),
    }
}

#[test]
fn widening_boundary_stays_integer() {
    match from_broker(PropertyValue::Ulong(2147483647)).unwrap() {
        DynamicValue::Int(x) => assert_eq!(x, 2147483647),
        other => panic!("unexpected value: {:?}", other),
    }
}

#[test]
fn widening_boundary_becomes_float() {
    match from_broker(PropertyValue::Ulong(2147483648)).unwrap() {
        DynamicValue::Double(DoubleValue::OfUnsigned(x)) => {
            assert_eq!(x as f64, 2147483648.0);
        }
        other => panic!("unexpected value: {:?}", other),
    }
}

#[test]
fn signed_long_widening() {
    match from_broker(PropertyValue::Long(-3_000_000_000)).unwrap() {
        DynamicValue::Double(DoubleValue::OfSigned(x)) => {
            assert_eq!(x as f64, -3000000000.0);
        }
        other => panic!("unexpected value: {:?}", other),
    }
    match from_broker(PropertyValue::Long(-5)).unwrap() {
        DynamicValue::Int(x) => assert_eq!(x, -5),
        other => panic!("unexpected value: {:?}", other),
    }
}

#[test]
fn unsigned_int_widening() {
    match from_broker(PropertyValue::Uint(4_000_000_000)).unwrap() {
        DynamicValue::Double(DoubleValue::OfUnsigned(x)) => {
            assert_eq!(x as f64, 4000000000.0);
        }
        other => panic!("unexpected value: {:?}", other),
    }
}

#[test]
fn narrow_integers_widen_losslessly() {
    assert!(matches!(from_broker(PropertyValue::Ubyte(200)).unwrap(), DynamicValue::Int(200)));
    assert!(matches!(from_broker(PropertyValue::Ushort(60000)).unwrap(), DynamicValue::Int(60000)));
    assert!(matches!(from_broker(PropertyValue::Byte(-100)).unwrap(), DynamicValue::Int(-100)));
    assert!(matches!(from_broker(PropertyValue::Short(-30000)).unwrap(), DynamicValue::Int(-30000)));
    assert!(matches!(from_broker(PropertyValue::Int(-7)).unwrap(), DynamicValue::Int(-7)));
}

#[test]
fn float_widens_to_double() {
    match from_broker(PropertyValue::Float(1.5f32.to_bits())).unwrap() {
        DynamicValue::Double(DoubleValue::OfFloatBits(b)) => {
            assert_eq!(f32::from_bits(b) as f64, 1.5);
        }
        other => panic!("unexpected value: {:?}", other),
    }
}

#[test]
fn char_is_refused() {
    assert!(matches!(
        from_broker(PropertyValue::Char('x')),
        Err(SessionError::CodecError)
    ));
}

#[test]
fn symbol_reads_as_text() {
    match from_broker(PropertyValue::Symbol(String::from("sym"))).unwrap() {
        DynamicValue::Str(s) => assert_eq!(s, "sym"),
        other => panic!("unexpected value: {:?}", other),
    }
}

#[test]
fn uuid_reads_as_canonical_text() {
    let bytes = [
        0x12, 0x34, 0x56, 0x78, 0x9a, 0xbc, 0xde, 0xf0, 0x11, 0x22, 0x33, 0x44, 0x55, 0x66, 0x77,
        0x88,
    ];
    assert_eq!(render_uuid(&bytes), "12345678-9abc-def0-1122-334455667788");
    match from_broker(PropertyValue::Uuid(bytes)).unwrap() {
        DynamicValue::Str(s) => assert_eq!(s, "12345678-9abc-def0-1122-334455667788"),
        other => panic!("unexpected value: {:?}", other),
    }
}

#[test]
fn non_bits_double_cannot_be_sent() {
    assert!(matches!(
        to_broker(DynamicValue::Double(DoubleValue::OfUnsigned(5))),
        Err(SessionError::CodecError)
    ));
}

#[test]
fn error_messages() {
    assert_eq!(SessionError::SpentBuilder.message(), "Parameter cannot be set");
    assert_eq!(SessionError::AlreadyBuilt.message(), "Already built");
    assert_eq!(SessionError::NoConnection.message(), "Environment not build");
    assert_eq!(SessionError::NoProducer.message(), "No producer");
    assert_eq!(SessionError::NoConsumer.message(), "No consumer");
    assert_eq!(SessionError::NoMessage.message(), "No message");
    assert_eq!(SessionError::StreamClosed.message(), "Stream closed");
    assert_eq!(SessionError::NotAllDelivered.message(), "Not delivered");
    assert_eq!(SessionError::CodecError.message(), "Unsupported property value");
    assert_eq!(SessionError::Broker(String::from("boom")).message(), "boom");
}
