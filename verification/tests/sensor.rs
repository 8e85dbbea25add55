use rackbox::reading::{SensorReading, Unit};
use rackbox::sensor::{parse_value, read_millicelsius, SensorError};

#[test]
fn thermal_zone_text_is_millidegrees() {
    assert_eq!(parse_value(b"46251\n"), Ok(46_251));
    assert_eq!(parse_value(b"0"), Ok(0));
    assert_eq!(parse_value(b"007"), Ok(7));
    assert_eq!(parse_value(b"50000"), Ok(50_000));
}

#[test]
fn signs_are_accepted() {
    assert_eq!(parse_value(b"-5000\n"), Ok(-5_000));
    assert_eq!(parse_value(b"+125"), Ok(125));
    assert_eq!(parse_value(b"-0"), Ok(0));
}

#[test]
fn surrounding_white_space_is_ignored() {
    assert_eq!(parse_value(b" \t\r\n42\x0b\x0c \n"), Ok(42));
    assert_eq!(parse_value(b"\n\n-1"), Ok(-1));
}

#[test]
fn blank_text_is_empty() {
    assert_eq!(parse_value(b""), Err(SensorError::Empty));
    assert_eq!(parse_value(b" \n\t"), Err(SensorError::Empty));
}

#[test]
fn other_shapes_are_malformed() {
    assert_eq!(parse_value(b"-"), Err(SensorError::Malformed));
    assert_eq!(parse_value(b"+"), Err(SensorError::Malformed));
    assert_eq!(parse_value(b"4 2"), Err(SensorError::Malformed));
    assert_eq!(parse_value(b"45.5"), Err(SensorError::Malformed));
    assert_eq!(parse_value(b"--1"), Err(SensorError::Malformed));
    assert_eq!(parse_value(b"12a"), Err(SensorError::Malformed));
    assert_eq!(parse_value(b"a12"), Err(SensorError::Malformed));
    assert_eq!(parse_value(b"1e3"), Err(SensorError::Malformed));
    assert_eq!(parse_value(b"\x0012"), Err(SensorError::Malformed));
    assert_eq!(parse_value(b"99999999999999999999x"), Err(SensorError::Malformed));
    assert_eq!(parse_value("４２".as_bytes()), Err(SensorError::Malformed));
}

#[test]
fn the_whole_range_of_i64_parses_and_nothing_beyond() {
    assert_eq!(parse_value(b"9223372036854775807"), Ok(i64::MAX));
    assert_eq!(parse_value(b"-9223372036854775808"), Ok(i64::MIN));
    assert_eq!(parse_value(b"-9223372036854775807"), Ok(i64::MIN + 1));
    assert_eq!(parse_value(b"9223372036854775808"), Err(SensorError::OutOfRange));
    assert_eq!(parse_value(b"-9223372036854775809"), Err(SensorError::OutOfRange));
    assert_eq!(parse_value(b"99999999999999999999"), Err(SensorError::OutOfRange));
    assert_eq!(
        parse_value(b"340282366920938463463374607431768211456"),
        Err(SensorError::OutOfRange)
    );
    assert_eq!(parse_value(b"00000000000000000000000000000000000000000012"), Ok(12));
}

#[test]
fn a_sample_keeps_its_time_and_unit() {
    assert_eq!(
        read_millicelsius(b"39875\n", 120_000),
        Ok(SensorReading { value: 39_875, unit: Unit::MilliCelsius, taken_at: 120_000 })
    );
    assert_eq!(read_millicelsius(b"warm", 5), Err(SensorError::Malformed));
    assert_eq!(read_millicelsius(b"", 5), Err(SensorError::Empty));
}
