use esp_temperature::drivers::led::ws2812::{frame, pulse_code, pulse_ticks};

#[test]
fn pulse_ticks_scale_nanoseconds() {
    // 350 ns at 40 MHz: 14 ticks.
    assert_eq!(pulse_ticks(350, 40), 14);
    assert_eq!(pulse_ticks(800, 40), 32);
    assert_eq!(pulse_ticks(0, 40), 0);
}

#[test]
fn pulse_code_packs_levels_and_lengths() {
    // High for 14 ticks, then low for 32: low half 0x8000 | 14, high half 32.
    assert_eq!(pulse_code(true, 14, false, 32), 0x0020_800E);
    assert_eq!(pulse_code(false, 0, false, 0), 0);
    assert_eq!(pulse_code(false, 1, true, 1), 0x8001_0001);
}

#[test]
fn frame_encodes_each_bit_high_first() {
    let zero = pulse_code(true, 14, false, 32);
    let one = pulse_code(true, 28, false, 24);

    // Pure green: the word is 0x00FF0000, so the first eight pulses carry
    // ones and the rest zeros.
    let pulses = frame(0, 255, 0, zero, one);
    assert_eq!(pulses.len(), 25);
    for i in 0..8 {
        assert_eq!(pulses[i], one);
    }
    for i in 8..24 {
        assert_eq!(pulses[i], zero);
    }
    assert_eq!(pulses[24], 0);

    // Pure blue sets only the last eight bits.
    let pulses = frame(0, 0, 255, zero, one);
    for i in 0..16 {
        assert_eq!(pulses[i], zero);
    }
    for i in 16..24 {
        assert_eq!(pulses[i], one);
    }

    // Red 0x80: a single one at bit 15 of the word, pulse index 8.
    let pulses = frame(0x80, 0, 0, zero, one);
    for i in 0..24 {
        assert_eq!(pulses[i], if i == 8 { one } else { zero });
    }
}
