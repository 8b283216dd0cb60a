use argon_fan_ctl::binary32::saturating_byte;
use argon_fan_ctl::shutdown::{keeps_running, ShutdownAction};
use argon_fan_ctl::DegreesC;

/// The limited, truncated value as floating-point arithmetic gives it.
fn by_float(t: f32) -> u8 {
    num::clamp(t, u8::MIN as f32, u8::MAX as f32) as u8
}

fn from_f32(t: f32) -> DegreesC {
    DegreesC::from_f32_bits(t.to_bits())
}

#[test]
fn degrees_c_from_f32_saturates() {
    assert_eq!(from_f32(-5.0), DegreesC(0));
    assert_eq!(from_f32(1000.0), DegreesC(255));
    assert_eq!(from_f32(40.7), DegreesC(40));
}

#[test]
fn degrees_c_from_f32_edges() {
    assert_eq!(from_f32(0.0), DegreesC::minimum());
    assert_eq!(from_f32(-0.0), DegreesC(0));
    assert_eq!(from_f32(0.999_999_9), DegreesC(0));
    assert_eq!(from_f32(1.0), DegreesC(1));
    assert_eq!(from_f32(1.999_999_9), DegreesC(1));
    assert_eq!(from_f32(2.0), DegreesC(2));
    assert_eq!(from_f32(127.5), DegreesC(127));
    assert_eq!(from_f32(128.0), DegreesC(128));
    assert_eq!(from_f32(254.0), DegreesC(254));
    assert_eq!(from_f32(254.999_98), DegreesC(254));
    assert_eq!(from_f32(255.0), DegreesC::maximum());
    assert_eq!(from_f32(255.5), DegreesC(255));
    assert_eq!(from_f32(256.0), DegreesC(255));
    assert_eq!(from_f32(16_777_216.0), DegreesC(255));
    assert_eq!(from_f32(f32::MAX), DegreesC(255));
    assert_eq!(from_f32(f32::MIN), DegreesC(0));
    assert_eq!(from_f32(f32::MIN_POSITIVE), DegreesC(0));
    assert_eq!(from_f32(f32::from_bits(1)), DegreesC(0));
    assert_eq!(from_f32(f32::EPSILON), DegreesC(0));
    assert_eq!(from_f32(f32::INFINITY), DegreesC(255));
    assert_eq!(from_f32(f32::NEG_INFINITY), DegreesC(0));
    assert_eq!(from_f32(f32::NAN), DegreesC(0));
    assert_eq!(from_f32(-f32::NAN), DegreesC(0));
    assert_eq!(from_f32(f32::from_bits(0x7F80_0001)), DegreesC(0));
    assert_eq!(from_f32(f32::from_bits(0xFFFF_FFFF)), DegreesC(0));
}

#[test]
fn degrees_c_from_f32_whole_degrees() {
    for whole in 0u8..=255 {
        assert_eq!(from_f32(whole as f32), DegreesC(whole));
        assert_eq!(from_f32(whole as f32 + 0.5), DegreesC(whole));
        assert_eq!(from_f32(-(whole as f32) - 0.5), DegreesC(0));
    }
}

#[test]
fn degrees_c_from_f32_millidegrees() {
    // Readings as a sensor that counts thousandths of a degree gives them.
    for raw in (0u32..300_000).step_by(7) {
        let t = raw as f32 / 1000.0;
        assert_eq!(from_f32(t), DegreesC(by_float(t)));
    }
    assert_eq!(from_f32(40_700 as f32 / 1000.0), DegreesC(40));
    assert_eq!(from_f32(65_000 as f32 / 1000.0), DegreesC(65));
}

#[test]
fn degrees_c_from_f32_agrees_with_float_arithmetic() {
    let mut bits: u32 = 0;
    loop {
        let t = f32::from_bits(bits);
        assert_eq!(saturating_byte(bits), by_float(t), "bits {:#010x}", bits);
        match bits.checked_add(40_009) {
            Some(next) => bits = next,
            None => break,
        }
    }
}

#[test]
fn degrees_c_from_f32_agrees_around_each_exponent() {
    for e in 0u32..=255 {
        for f in [0u32, 1, 2, 0x3F_FFFF, 0x40_0000, 0x40_0001, 0x7F_0000, 0x7F_FFFE, 0x7F_FFFF] {
            for sign in [0u32, 0x8000_0000] {
                let bits = sign | (e << 23) | f;
                let t = f32::from_bits(bits);
                assert_eq!(saturating_byte(bits), by_float(t), "bits {:#010x}", bits);
            }
        }
    }
}

#[test]
fn first_shutdown_request_is_graceful() {
    assert_eq!(ShutdownAction::for_request(0), ShutdownAction::Graceful);
    assert_eq!(ShutdownAction::for_request(1), ShutdownAction::Forced);
    assert_eq!(ShutdownAction::for_request(2), ShutdownAction::Forced);
    assert_eq!(ShutdownAction::for_request(usize::MAX), ShutdownAction::Forced);
    assert!(keeps_running(0));
    assert!(!keeps_running(1));
    assert!(!keeps_running(usize::MAX));
}
