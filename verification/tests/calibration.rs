use bme280::{CalibrationData, ErrorKind};

fn reference_coefficients() -> CalibrationData {
    CalibrationData {
        t1: 27504,
        t2: 26435,
        t3: -1000,
        p1: 36477,
        p2: -10685,
        p3: 3024,
        p4: 2855,
        p5: 140,
        p6: -7,
        p7: 15500,
        p8: -14600,
        p9: 6000,
        h1: 75,
        h2: 363,
        h3: 0,
        h4: 329,
        h5: 50,
        h6: 30,
    }
}

#[test]
fn decode_reference_block() {
    let buffer: Vec<u8> = vec![
        0x70, 0x6B, // t1 = 27504
        0x43, 0x67, // t2 = 26435
        0x18, 0xFC, // t3 = -1000
        0x7D, 0x8E, // p1 = 36477
        0x43, 0xD6, // p2 = -10685
        0xD0, 0x0B, // p3 = 3024
        0x27, 0x0B, // p4 = 2855
        0x8C, 0x00, // p5 = 140
        0xF9, 0xFF, // p6 = -7
        0x8C, 0x3C, // p7 = 15500
        0xF8, 0xC6, // p8 = -14600
        0x70, 0x17, // p9 = 6000
        0x00, // unread
        0x4B, // h1 = 75
        0x6B, 0x01, // h2 = 363
        0x00, // h3 = 0
        0x14, 0x9A, 0x03, // h4 = 0x14A = 330, h5 = 0x39
        0x1E, // h6 = 30
        0x00, 0x00, 0x00, 0x00, 0x00, 0x00, 0x00, 0x00, 0x00,
    ];
    assert_eq!(buffer.len(), 42);
    let cal = CalibrationData::from_vec(buffer).unwrap();
    assert_eq!(cal.t1, 27504);
    assert_eq!(cal.t2, 26435);
    assert_eq!(cal.t3, -1000);
    assert_eq!(cal.p1, 36477);
    assert_eq!(cal.p2, -10685);
    assert_eq!(cal.p3, 3024);
    assert_eq!(cal.p4, 2855);
    assert_eq!(cal.p5, 140);
    assert_eq!(cal.p6, -7);
    assert_eq!(cal.p7, 15500);
    assert_eq!(cal.p8, -14600);
    assert_eq!(cal.p9, 6000);
    assert_eq!(cal.h1, 75);
    assert_eq!(cal.h2, 363);
    assert_eq!(cal.h3, 0);
    assert_eq!(cal.h4, 330);
    assert_eq!(cal.h5, 57);
    assert_eq!(cal.h6, 30);
}

#[test]
fn decode_is_deterministic() {
    let buffer: Vec<u8> = (0..42).map(|i| (i * 7 + 3) as u8).collect();
    let a = CalibrationData::from_vec(buffer.clone()).unwrap();
    let b = CalibrationData::from_vec(buffer).unwrap();
    assert_eq!(a, b);
}

#[test]
fn decode_is_total_on_42_bytes() {
    // Extreme byte patterns all decode without failure.
    for fill in [0x00u8, 0x7F, 0x80, 0xFF] {
        let buffer = vec![fill; 42];
        assert!(CalibrationData::from_vec(buffer).is_ok());
    }
}

#[test]
fn decode_rejects_wrong_lengths() {
    for len in [0usize, 1, 26, 41, 43, 84] {
        let buffer = vec![0u8; len];
        let err = CalibrationData::from_vec(buffer).unwrap_err();
        assert_eq!(err.kind, ErrorKind::InvalidCalibrationLength);
    }
}

#[test]
fn round_trip_reference_coefficients() {
    let cal = reference_coefficients();
    let buffer = cal.to_bytes();
    assert_eq!(buffer.len(), 42);
    let decoded = CalibrationData::from_vec(buffer).unwrap();
    assert_eq!(decoded, cal);
}

#[test]
fn round_trip_packed_nibble_fields() {
    // h4 and h5 share a byte; values with distinct nibbles in every
    // position must survive the trip exactly.
    let mut cal = reference_coefficients();
    cal.h4 = 0xABC;
    cal.h5 = 0x123;
    let decoded = CalibrationData::from_vec(cal.to_bytes()).unwrap();
    assert_eq!(decoded.h4, 0xABC);
    assert_eq!(decoded.h5, 0x123);
    assert_eq!(decoded, cal);
}

#[test]
fn decode_then_encode_preserves_coefficients() {
    // Whatever a block decodes to is encodable, and encoding it yields a
    // block that decodes identically.
    let buffer: Vec<u8> = (0..42u32).map(|i| (255 - i * 3) as u8).collect();
    let cal = CalibrationData::from_vec(buffer).unwrap();
    let again = CalibrationData::from_vec(cal.to_bytes()).unwrap();
    assert_eq!(cal, again);
}

#[test]
fn round_trip_extreme_coefficients() {
    let extremes = CalibrationData {
        t1: u16::MAX,
        t2: i16::MIN,
        t3: i16::MAX,
        p1: 0,
        p2: -1,
        p3: i16::MIN,
        p4: i16::MAX,
        p5: 0,
        p6: -32768,
        p7: 32767,
        p8: 1,
        p9: -2,
        h1: u8::MAX,
        h2: i16::MIN,
        h3: 0,
        h4: 4095,
        h5: 0,
        h6: i8::MIN,
    };
    let decoded = CalibrationData::from_vec(extremes.to_bytes()).unwrap();
    assert_eq!(decoded, extremes);
}
