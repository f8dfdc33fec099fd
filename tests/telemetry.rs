use imu_playground::codec::Axes;
use imu_playground::telemetry::{encode_line, format_count, MAX_LINE_LEN};

fn text(s: &str) -> Vec<u8> {
    s.as_bytes().to_vec()
}

#[test]
fn counts_in_decimal() {
    assert_eq!(format_count(0), text("0"));
    assert_eq!(format_count(7), text("7"));
    assert_eq!(format_count(-12), text("-12"));
    assert_eq!(format_count(i16::MAX), text("32767"));
    assert_eq!(format_count(i16::MIN), text("-32768"));
}

#[test]
fn line_has_nine_fields_in_order() {
    let acc = [text("0.5"), text("-1"), text("0.25")];
    let angles = [text("350"), text("10"), text("0")];
    let mag = Axes { x: 12, y: -3, z: 0 };
    let line = encode_line(&acc, mag, &angles).unwrap();
    assert_eq!(line, text("0.5,-1,0.25,12,-3,0,350,10,0\r\n"));
}

#[test]
fn magnetic_field_stays_in_raw_counts() {
    let acc = [text("0"), text("0"), text("1")];
    let angles = [text("0"), text("0"), text("0")];
    let mag = Axes { x: i16::MIN, y: i16::MAX, z: -1 };
    let line = encode_line(&acc, mag, &angles).unwrap();
    assert_eq!(line, text("0,0,1,-32768,32767,-1,0,0,0\r\n"));
}

#[test]
fn longest_line_fits_and_one_more_byte_does_not() {
    let mag = Axes { x: 0, y: 0, z: 0 };
    let angles = [text("0"), text("0"), text("0")];
    // Fixed part: 8 commas, three "0" magnetic fields, three "0" angles, "\r\n".
    let fixed = 8 + 3 + 3 + 2;
    let first = MAX_LINE_LEN - fixed - 2;
    let acc = [vec![b'1'; first], text("2"), text("3")];
    let line = encode_line(&acc, mag, &angles).unwrap();
    assert_eq!(line.len(), MAX_LINE_LEN);
    assert!(line.ends_with(b"\r\n"));
    let acc = [vec![b'1'; first + 1], text("2"), text("3")];
    assert_eq!(encode_line(&acc, mag, &angles), None);
}
