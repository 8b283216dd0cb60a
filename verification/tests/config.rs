use argon_fan_ctl::{Config, ConfigCheckError, DegreesC, FanSpeed, FanSpeedMap, UpdateIntervalSeconds};

fn config(t_min: u8, t_max: u8, s_min: u8, s_max: u8) -> Config {
    Config {
        update_interval_seconds: UpdateIntervalSeconds::new(30).unwrap(),
        temperature_min: t_min.into(),
        temperature_max: t_max.into(),
        fan_speed_min: FanSpeed::from_raw(s_min),
        fan_speed_max: FanSpeed::from_raw(s_max),
    }
}

#[test]
fn sane_default() {
    assert_eq!(
        Config::default(),
        Config {
            update_interval_seconds: UpdateIntervalSeconds::new(30).unwrap(),
            temperature_min: 33.into(),
            temperature_max: 65.into(),
            fan_speed_min: FanSpeed::new(0).unwrap(),
            fan_speed_max: FanSpeed::maximum(),
        }
    );
}

#[test]
fn config_check_errors() {
    let c = Config {
        update_interval_seconds: UpdateIntervalSeconds::new(30).unwrap(),
        temperature_min: 1.into(),
        temperature_max: 0.into(),
        fan_speed_min: FanSpeed::new(10).unwrap(),
        fan_speed_max: FanSpeed::maximum(),
    };
    assert_eq!(c.check(), Err(ConfigCheckError::InvalidTemperatureRange));
    let c = Config {
        update_interval_seconds: UpdateIntervalSeconds::new(30).unwrap(),
        temperature_min: 0.into(),
        temperature_max: 1.into(),
        fan_speed_min: FanSpeed::new(10).unwrap(),
        fan_speed_max: FanSpeed::new(1).unwrap(),
    };
    assert_eq!(c.check(), Err(ConfigCheckError::InvalidFanSpeedRange));
}

#[test]
fn default_config_passes_check() {
    let c = Config::default();
    assert_eq!(c.check(), Ok(()));
    assert_eq!(c.update_interval_seconds.get(), 30);
    assert_eq!(u8::from(c.fan_speed_min), 0);
    assert_eq!(u8::from(c.fan_speed_max), 100);
}

#[test]
fn check_accepts_other_profile() {
    assert_eq!(config(55, 65, 10, 100).check(), Ok(()));
    assert_eq!(config(0, 255, 0, 100).check(), Ok(()));
    assert_eq!(config(254, 255, 99, 100).check(), Ok(()));
}

#[test]
fn check_rejects_equal_temperatures() {
    assert_eq!(
        config(40, 40, 0, 100).check(),
        Err(ConfigCheckError::InvalidTemperatureRange)
    );
}

#[test]
fn check_rejects_equal_fan_speeds() {
    assert_eq!(
        config(33, 65, 50, 50).check(),
        Err(ConfigCheckError::InvalidFanSpeedRange)
    );
}

#[test]
fn check_rejects_fan_speed_min_above_hundred() {
    assert_eq!(
        config(33, 65, 101, 102).check(),
        Err(ConfigCheckError::InvalidFanSpeedMin)
    );
    assert_eq!(
        config(33, 65, 150, 255).check(),
        Err(ConfigCheckError::InvalidFanSpeedMin)
    );
}

#[test]
fn check_rejects_fan_speed_max_above_hundred() {
    assert_eq!(
        config(33, 65, 100, 101).check(),
        Err(ConfigCheckError::InvalidFanSpeedMax)
    );
    assert_eq!(
        config(33, 65, 0, 255).check(),
        Err(ConfigCheckError::InvalidFanSpeedMax)
    );
}

#[test]
fn check_reports_temperature_range_first() {
    // Both ranges fall: the temperature range is what is reported.
    assert_eq!(
        config(65, 33, 100, 0).check(),
        Err(ConfigCheckError::InvalidTemperatureRange)
    );
    // Falling temperatures and fan speeds above a hundred.
    assert_eq!(
        config(65, 33, 200, 250).check(),
        Err(ConfigCheckError::InvalidTemperatureRange)
    );
}

#[test]
fn check_reports_fan_speed_range_before_limits() {
    assert_eq!(
        config(33, 65, 250, 200).check(),
        Err(ConfigCheckError::InvalidFanSpeedRange)
    );
}

#[test]
fn check_agrees_with_the_four_rules_everywhere() {
    for t_min in [0u8, 1, 33, 64, 65, 254, 255] {
        for t_max in [0u8, 1, 33, 64, 65, 254, 255] {
            for s_min in (0u8..=255).step_by(5) {
                for s_max in (0u8..=255).step_by(5) {
                    let expected = if t_min >= t_max {
                        Err(ConfigCheckError::InvalidTemperatureRange)
                    } else if s_min >= s_max {
                        Err(ConfigCheckError::InvalidFanSpeedRange)
                    } else if s_min > 100 {
                        Err(ConfigCheckError::InvalidFanSpeedMin)
                    } else if s_max > 100 {
                        Err(ConfigCheckError::InvalidFanSpeedMax)
                    } else {
                        Ok(())
                    };
                    assert_eq!(config(t_min, t_max, s_min, s_max).check(), expected);
                }
            }
        }
    }
}

#[test]
fn checked_config_builds_a_map() {
    let c = Config::default();
    assert!(c.check().is_ok());
    let map = FanSpeedMap::new(
        c.temperature_min,
        c.temperature_max,
        c.fan_speed_min,
        c.fan_speed_max,
    );
    assert_eq!(map.get(DegreesC(33)), FanSpeed::minimum());
    assert_eq!(map.get(DegreesC(65)), FanSpeed::maximum());
    assert_eq!(map.get(DegreesC(49)), FanSpeed::new(50).unwrap());
}
