use esp_temperature::drivers::sensors::dht22::{byte_from_bits, checksum_ok, decode};
use esp_temperature::drivers::sensors::lm75b::{decode_temperature, Lm75B};

#[test]
fn lm75b_positive_temperatures() {
    // 25.0 C: msb 25, no fraction.
    assert_eq!(decode_temperature(25, 0x00), 200);
    // 25.875 C: fraction bits 111.
    assert_eq!(decode_temperature(25, 0xE0), 207);
    // 0.125 C.
    assert_eq!(decode_temperature(0, 0x20), 1);
}

#[test]
fn lm75b_negative_temperatures() {
    // -0.5 C is encoded as 0xFF80.
    assert_eq!(decode_temperature(0xFF, 0x80), -4);
    // -25.0 C.
    assert_eq!(decode_temperature(0xE7, 0x00), -200);
}

#[test]
fn lm75b_fraction_ignores_low_bits() {
    // Only the top three bits of the low byte carry information.
    assert_eq!(decode_temperature(10, 0x1F), decode_temperature(10, 0x00));
}

#[test]
fn lm75b_handle_keeps_address() {
    let sensor = Lm75B::new((), 0x48);
    assert_eq!(sensor.address(), 0x48);
    let (address, operations) = sensor.read_temperature_request();
    assert_eq!(address, 0x48);
    assert_eq!(operations.len(), 2);
}

#[test]
fn dht22_checksum_judgement() {
    // 0x01 + 0x02 + 0x03 + 0x04 = 0x0A.
    assert!(checksum_ok(0x01, 0x02, 0x03, 0x04, 0x0A));
    assert!(!checksum_ok(0x01, 0x02, 0x03, 0x04, 0x0B));
    // The sum wraps to its low byte: 0xFF + 0xFF + 0xFF + 0xFF = 0x3FC.
    assert!(checksum_ok(0xFF, 0xFF, 0xFF, 0xFF, 0xFC));
}

#[test]
fn dht22_decodes_positive_frame() {
    // 65.2 % relative humidity, 35.0 C.
    let reading = decode(0x02, 0x8C, 0x01, 0x5E);
    assert_eq!(reading.humidity_tenths, 652);
    assert_eq!(reading.temperature_tenths, 350);
}

#[test]
fn dht22_decodes_negative_temperature() {
    // The top bit of the temperature high byte is the sign: -10.1 C.
    let reading = decode(0x01, 0x90, 0x80, 0x65);
    assert_eq!(reading.temperature_tenths, -101);
    assert_eq!(reading.humidity_tenths, 400);
}

#[test]
fn dht22_byte_assembly() {
    assert_eq!(byte_from_bits(&[false; 8]), 0x00);
    assert_eq!(byte_from_bits(&[true; 8]), 0xFF);
    assert_eq!(
        byte_from_bits(&[true, false, false, false, false, false, false, true]),
        0x81
    );
    assert_eq!(
        byte_from_bits(&[false, true, false, true, false, true, false, true]),
        0x55
    );
}
