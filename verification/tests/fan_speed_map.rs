use argon_fan_ctl::interpolation::map_range;
use argon_fan_ctl::{DegreesC, FanSpeed, FanSpeedMap};

fn map(t_min: u8, t_max: u8, s_min: u8, s_max: u8) -> FanSpeedMap {
    FanSpeedMap::new(
        DegreesC(t_min),
        DegreesC(t_max),
        FanSpeed::new(s_min).unwrap(),
        FanSpeed::new(s_max).unwrap(),
    )
}

fn speed(m: &FanSpeedMap, t: u8) -> u8 {
    u8::from(m.get(DegreesC(t)))
}

/// The same line evaluated in double precision, limited and truncated.
fn in_double_precision(t_min: u8, t_max: u8, s_min: u8, s_max: u8, t: u8) -> u8 {
    let s = s_min as f64
        + (t as f64 - t_min as f64) * (s_max as f64 - s_min as f64)
            / (t_max as f64 - t_min as f64);
    num::clamp(s as u8, s_min, s_max)
}

#[test]
fn basic_mappings() {
    for (t_min, t_max) in [(33u8, 65u8), (55, 65), (0, 255), (0, 1), (254, 255), (10, 11)] {
        for s_min in 0u8..100 {
            for s_max in (s_min + 1)..=100 {
                let m = map(t_min, t_max, s_min, s_max);
                for t in 0u8..=255 {
                    let fs = m.get(DegreesC(t));
                    assert!(fs >= FanSpeed::new(s_min).unwrap());
                    assert!(fs <= FanSpeed::new(s_max).unwrap());
                }
            }
        }
    }
}

#[test]
fn default_curve_values() {
    let m = map(33, 65, 0, 100);
    assert_eq!(speed(&m, 33), 0);
    assert_eq!(speed(&m, 34), 3); // 100 / 32 = 3.125
    assert_eq!(speed(&m, 35), 6); // 200 / 32 = 6.25
    assert_eq!(speed(&m, 41), 25);
    assert_eq!(speed(&m, 49), 50);
    assert_eq!(speed(&m, 57), 75);
    assert_eq!(speed(&m, 64), 96); // 3100 / 32 = 96.875
    assert_eq!(speed(&m, 65), 100);
}

#[test]
fn other_profile_values() {
    let m = map(55, 65, 10, 100);
    assert_eq!(speed(&m, 54), 10);
    assert_eq!(speed(&m, 55), 10);
    assert_eq!(speed(&m, 56), 19);
    assert_eq!(speed(&m, 60), 55);
    assert_eq!(speed(&m, 64), 91);
    assert_eq!(speed(&m, 65), 100);
    assert_eq!(speed(&m, 66), 100);
}

#[test]
fn end_points_are_exact() {
    for (t_min, t_max) in [(33u8, 65u8), (0, 255), (0, 1), (254, 255), (7, 250)] {
        for (s_min, s_max) in [(0u8, 100u8), (10, 100), (0, 1), (99, 100), (37, 38), (25, 75)] {
            let m = map(t_min, t_max, s_min, s_max);
            assert_eq!(speed(&m, t_min), s_min);
            assert_eq!(speed(&m, t_max), s_max);
        }
    }
}

#[test]
fn floor_below_and_ceiling_above() {
    let m = map(33, 65, 10, 90);
    for t in 0u8..33 {
        assert_eq!(speed(&m, t), 10);
    }
    for t in 66u8..=255 {
        assert_eq!(speed(&m, t), 90);
    }
    let whole = map(0, 255, 0, 100);
    assert_eq!(speed(&whole, 0), 0);
    assert_eq!(speed(&whole, 255), 100);
}

#[test]
fn speeds_never_fall_with_temperature() {
    for (t_min, t_max) in [(33u8, 65u8), (0, 255), (0, 1), (100, 200)] {
        for (s_min, s_max) in [(0u8, 100u8), (10, 100), (0, 1), (99, 100), (25, 75)] {
            let m = map(t_min, t_max, s_min, s_max);
            let mut previous = speed(&m, 0);
            for t in 1u8..=255 {
                let next = speed(&m, t);
                assert!(previous <= next);
                previous = next;
            }
        }
    }
}

#[test]
fn agrees_with_double_precision_over_all_temperature_ranges() {
    for (s_min, s_max) in [(0u8, 100u8), (10, 100), (0, 1), (37, 38), (33, 67)] {
        for t_min in (0u8..255).step_by(7) {
            for t_max in (t_min + 1)..=255 {
                for t in t_min..=t_max {
                    assert_eq!(
                        map_range((t_min, t_max), (s_min, s_max), t),
                        in_double_precision(t_min, t_max, s_min, s_max, t)
                    );
                }
            }
        }
    }
}

#[test]
fn agrees_with_double_precision_over_all_fan_speed_ranges() {
    for (t_min, t_max) in [(33u8, 65u8), (55, 65), (0, 255), (0, 1), (3, 254)] {
        for s_min in 0u8..100 {
            for s_max in (s_min + 1)..=100 {
                let m = map(t_min, t_max, s_min, s_max);
                for t in 0u8..=255 {
                    let expected = if t < t_min {
                        s_min
                    } else if t > t_max {
                        s_max
                    } else {
                        in_double_precision(t_min, t_max, s_min, s_max, t)
                    };
                    assert_eq!(speed(&m, t), expected);
                }
            }
        }
    }
}

#[test]
fn map_range_rounds_down() {
    assert_eq!(map_range((0, 3), (0, 10), 1), 3);
    assert_eq!(map_range((0, 3), (0, 10), 2), 6);
    assert_eq!(map_range((0, 3), (0, 10), 3), 10);
    assert_eq!(map_range((0, 255), (0, 255), 255), 255);
    assert_eq!(map_range((0, 255), (0, 255), 128), 128);
    assert_eq!(map_range((10, 20), (5, 5), 15), 5);
    assert_eq!(map_range((0, 255), (0, 1), 254), 0);
}

#[test]
fn cloned_map_is_equal() {
    let m = map(33, 65, 0, 100);
    let copy = m.clone();
    assert_eq!(m, copy);
    assert_ne!(m, map(33, 65, 0, 99));
    for t in 0u8..=255 {
        assert_eq!(m.get(DegreesC(t)), copy.get(DegreesC(t)));
    }
}
