use ak09915::codec::decode_axis;
use ak09915::codec::decode_sample_bytes;
use ak09915::codec::judge_self_test;
use ak09915::regs::Mode;

#[test]
fn decode_axis_known_values() {
    assert_eq!(decode_axis(0x34, 0x12), 0x1234);
    assert_eq!(decode_axis(0x00, 0x00), 0);
    assert_eq!(decode_axis(0x01, 0x00), 1);
    assert_eq!(decode_axis(0xFF, 0xFF), -1);
    assert_eq!(decode_axis(0x00, 0x80), -32768);
    assert_eq!(decode_axis(0xFF, 0x7F), 32767);
}

#[test]
fn decode_axis_round_trips_boundary_values() {
    let values: Vec<i16> = vec![-32768, -1, 0, 1, 32767, 257, -257];
    for v in values {
        let bytes = (v as u16).to_le_bytes();
        assert_eq!(decode_axis(bytes[0], bytes[1]), v);
    }
}

#[test]
fn decode_sample_bytes_round_trips_a_triple() {
    let (x, y, z): (i16, i16, i16) = (-32768, 32767, -1);
    let mut data = Vec::new();
    data.extend_from_slice(&(x as u16).to_le_bytes());
    data.extend_from_slice(&(y as u16).to_le_bytes());
    data.extend_from_slice(&(z as u16).to_le_bytes());
    assert_eq!(decode_sample_bytes(&data), (x, y, z));
}

#[test]
fn self_test_judgment_accepts_and_rejects_the_documented_readings() {
    assert!(judge_self_test(0, 0, -500));
    assert!(!judge_self_test(201, 0, -500));
    assert!(!judge_self_test(0, 0, -199));
    assert!(judge_self_test(-200, 200, -800));
}

#[test]
fn self_test_judgment_boundaries() {
    assert!(!judge_self_test(-201, 0, -500));
    assert!(!judge_self_test(0, 201, -500));
    assert!(!judge_self_test(0, -201, -500));
    assert!(!judge_self_test(0, 0, -801));
    assert!(judge_self_test(200, -200, -200));
    assert!(!judge_self_test(0, 0, 0));
}

#[test]
fn mode_bit_patterns_match_the_register_map() {
    assert_eq!(Mode::PowerDown.bits(), 0x00);
    assert_eq!(Mode::SingleMeasurement.bits(), 0x01);
    assert_eq!(Mode::ContMeasurement10.bits(), 0x02);
    assert_eq!(Mode::ContMeasurement20.bits(), 0x04);
    assert_eq!(Mode::ContMeasurement50.bits(), 0x06);
    assert_eq!(Mode::ContMeasurement100.bits(), 0x08);
    assert_eq!(Mode::ContMeasurement200.bits(), 0x0A);
    assert_eq!(Mode::ContMeasurement1.bits(), 0x0C);
    assert_eq!(Mode::SelfTest.bits(), 0x10);
}
