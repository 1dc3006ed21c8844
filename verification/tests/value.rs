use cobalt::value::{TagType, TagValue};

#[test]
fn values_carry_their_type() {
    assert_eq!(TagValue::Bool(true).tag_type(), TagType::Bool);
    assert_eq!(TagValue::Int16(-3).tag_type(), TagType::Int16);
    assert_eq!(TagValue::Int32(70_000).tag_type(), TagType::Int32);
    assert_eq!(TagValue::Float32(0x3F80_0000).tag_type(), TagType::Float32);
}

#[test]
fn float_bits_only_for_float_values() {
    assert_eq!(TagValue::Float32(0x4120_0000).float_bits(), Some(0x4120_0000));
    assert_eq!(TagValue::Bool(false).float_bits(), None);
    assert_eq!(TagValue::Int16(7).float_bits(), None);
    assert_eq!(TagValue::Int32(-1).float_bits(), None);
}

#[test]
fn float_values_round_trip_through_bits() {
    let v = TagValue::Float32(2.5f32.to_bits());
    let bits = v.float_bits().unwrap();
    assert_eq!(f32::from_bits(bits), 2.5f32);
}
