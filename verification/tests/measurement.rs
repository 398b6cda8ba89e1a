use co2_exporter::measurement::{c_to_f, Measurement, UNITS_PER_DEGREE};

fn degrees(units: i64) -> f64 {
    units as f64 / UNITS_PER_DEGREE as f64
}

#[test]
fn units_per_degree() {
    assert_eq!(UNITS_PER_DEGREE, 10_000);
}

#[test]
fn raw_temperature_to_celsius() {
    assert_eq!(Measurement::from_raw_temperature(4000), Measurement::Temperature(-231_500));
    assert_eq!(Measurement::from_raw_temperature(4742), Measurement::Temperature(232_250));
    assert_eq!(Measurement::from_raw_temperature(4371), Measurement::Temperature(375));
}

#[test]
fn raw_temperature_extremes() {
    assert_eq!(Measurement::from_raw_temperature(0), Measurement::Temperature(-2_731_500));
    assert_eq!(Measurement::from_raw_temperature(1), Measurement::Temperature(-2_730_875));
    assert_eq!(Measurement::from_raw_temperature(u16::MAX), Measurement::Temperature(38_227_875));
}

#[test]
fn raw_temperature_matches_the_affine_formula() {
    for raw in [0u16, 1, 15, 16, 4000, 4370, 4371, 4742, 40000, 65535] {
        let expected = raw as f64 * 0.0625 - 273.15;
        match Measurement::from_raw_temperature(raw) {
            Measurement::Temperature(units) => {
                assert!((degrees(units as i64) - expected).abs() < 1e-9);
            }
            other => panic!("not a temperature: {:?}", other),
        }
    }
    match Measurement::from_raw_temperature(4000) {
        Measurement::Temperature(units) => assert_eq!(degrees(units as i64), -23.15),
        other => panic!("not a temperature: {:?}", other),
    }
}

#[test]
fn fahrenheit_of_freezing_and_boiling() {
    // c_to_f(0) == 32, c_to_f(100) == 212
    assert_eq!(c_to_f(0), 320_000);
    assert_eq!(c_to_f(100 * UNITS_PER_DEGREE), 2_120_000);
    assert_eq!(degrees(c_to_f(0)), 32.0);
    assert_eq!(degrees(c_to_f(1_000_000)), 212.0);
}

#[test]
fn fahrenheit_of_common_values() {
    assert_eq!(c_to_f(-400_000), -400_000);
    assert_eq!(c_to_f(370_000), 986_000);
    assert_eq!(c_to_f(-231_500), -96_700);
    assert_eq!(c_to_f(232_250), 738_050);
    assert_eq!(c_to_f(5), 320_009);
    assert_eq!(c_to_f(-5), 319_991);
}

#[test]
fn fahrenheit_rounds_to_nearest() {
    // 1.8, 3.6, 5.4, 7.2 and their negatives
    assert_eq!(c_to_f(1), 320_002);
    assert_eq!(c_to_f(2), 320_004);
    assert_eq!(c_to_f(3), 320_005);
    assert_eq!(c_to_f(4), 320_007);
    assert_eq!(c_to_f(-1), 319_998);
    assert_eq!(c_to_f(-2), 319_996);
    assert_eq!(c_to_f(-3), 319_995);
    assert_eq!(c_to_f(-4), 319_993);
}

#[test]
fn fahrenheit_extremes() {
    assert_eq!(c_to_f(i32::MAX), 3_865_790_565);
    assert_eq!(c_to_f(i32::MIN), -3_865_150_566);
}

#[test]
fn fahrenheit_is_within_two_fifths_of_a_unit() {
    let mut x: u64 = 5;
    for _ in 0..5000 {
        x = x.wrapping_mul(6364136223846793005).wrapping_add(1442695040888963407);
        let c = (x >> 32) as u32 as i32;
        let f = c_to_f(c);
        let error = 5 * (f - 320_000) - 9 * c as i64;
        assert!((-2..=2).contains(&error));
        if c % 5 == 0 {
            assert_eq!(error, 0);
        }
    }
}

#[test]
fn fahrenheit_of_sensor_temperatures_is_exact() {
    for raw in 0..=u16::MAX {
        match Measurement::from_raw_temperature(raw) {
            Measurement::Temperature(c) => {
                assert_eq!(c_to_f(c), raw as i64 * 1125 - 4_596_700);
            }
            other => panic!("not a temperature: {:?}", other),
        }
    }
}

#[test]
fn measurements_compare_by_value() {
    assert_eq!(Measurement::CO2(415), Measurement::CO2(415));
    assert_ne!(Measurement::CO2(415), Measurement::CO2(416));
    assert_ne!(Measurement::CO2(0), Measurement::Temperature(0));
    let m = Measurement::Temperature(7);
    let copy = m;
    assert_eq!(m, copy);
}
