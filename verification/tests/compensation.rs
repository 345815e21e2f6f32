use bme280::CalibrationData;

fn reference_coefficients() -> CalibrationData {
    CalibrationData {
        t1: 27504,
        t2: 26435,
        t3: -1000,
        p1: 36477,
        p2: -10685,
        p3: 3024,
        p4: 2855,
        p5: 140,
        p6: -7,
        p7: 15500,
        p8: -14600,
        p9: 6000,
        h1: 75,
        h2: 363,
        h3: 0,
        h4: 329,
        h5: 50,
        h6: 30,
    }
}

#[test]
fn temperature_reference_example() {
    // Raw temperature 519888 with the reference coefficients t1 = 27504,
    // t2 = 26435, t3 = -1000 yields the fine-value 128422; the reported
    // temperature is (128422 * 5 + 128) >> 8 = 2508 hundredths of a degree.
    let cal = reference_coefficients();
    let (temperature, t_fine) = cal.compensate_temperature(519888);
    assert_eq!(t_fine, 128422);
    assert_eq!(temperature, (128422 * 5 + 128) >> 8);
    assert_eq!(temperature, 2508);
}

#[test]
fn temperature_zero_reading() {
    // A raw reading of zero with zeroed coefficients gives exactly zero.
    let cal = CalibrationData {
        t1: 0,
        t2: 0,
        t3: 0,
        ..reference_coefficients()
    };
    let (temperature, t_fine) = cal.compensate_temperature(0);
    assert_eq!(t_fine, 0);
    assert_eq!(temperature, 0);
}

#[test]
fn pressure_reference_example() {
    // Raw pressure 415148 at the reference fine-value 128422 gives
    // 25767233 in 1/256 Pa units (about 100653.25 Pa).
    let cal = reference_coefficients();
    let (_, t_fine) = cal.compensate_temperature(519888);
    let pressure = cal.compensate_pressure(t_fine, 415148);
    assert_eq!(pressure, 25767233);
}

#[test]
fn pressure_zero_normalization_short_circuits() {
    // p1 = 0 drives the normalization term to exactly zero; compensation
    // must report 0 for any raw reading rather than divide.
    let cal = CalibrationData {
        p1: 0,
        ..reference_coefficients()
    };
    let (_, t_fine) = cal.compensate_temperature(519888);
    for raw in [0i32, 1, 415148, 0xFFFFF] {
        assert_eq!(cal.compensate_pressure(t_fine, raw), 0);
    }
    // The short-circuit is independent of the other coefficients too.
    let cal2 = CalibrationData {
        p1: 0,
        p2: i16::MIN,
        p9: i16::MAX,
        ..reference_coefficients()
    };
    let (_, t_fine2) = cal2.compensate_temperature(0);
    assert_eq!(cal2.compensate_pressure(t_fine2, 123456), 0);
}

#[test]
fn humidity_reference_example() {
    // Raw humidity 32768 at the reference fine-value gives 66416 in
    // 1/1024 %RH units (about 64.86 %RH).
    let cal = reference_coefficients();
    let (_, t_fine) = cal.compensate_temperature(519888);
    let humidity = cal.compensate_humidity(t_fine, 32768);
    assert_eq!(humidity, 66416);
}

#[test]
fn humidity_always_within_clamp_range() {
    // The output saturates to [0, 102400] for any fine-value, raw count
    // and coefficient combination.
    let cal = reference_coefficients();
    let hostile = CalibrationData {
        h1: u8::MAX,
        h2: i16::MIN,
        h3: u8::MAX,
        h4: i16::MAX,
        h5: i16::MIN,
        h6: i8::MIN,
        ..reference_coefficients()
    };
    for cal in [cal, hostile] {
        for t_fine in [i32::MIN, -123456789, 0, 76800, 128422, i32::MAX] {
            for raw in [0u16, 1, 32768, 40000, u16::MAX] {
                let h = cal.compensate_humidity(t_fine, raw);
                assert!(h <= 102400, "humidity {} out of range", h);
            }
        }
    }
}

#[test]
fn humidity_saturates_at_both_ends() {
    let cal = reference_coefficients();
    // Far-negative fine-value drives the chain below zero: clamps to 0.
    assert_eq!(cal.compensate_humidity(-123456789, 40000), 0);
    // Saturated high: clamps to the 100 %RH ceiling.
    assert_eq!(cal.compensate_humidity(128422, u16::MAX), 102400);
}
