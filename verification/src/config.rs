use crate::degrees::DegreesC;
use crate::fan_speed::FanSpeed;
use crate::fan_speed_map::FanCurve;
use crate::interval::UpdateIntervalSeconds;
use vstd::prelude::*;

verus! {

/// Where the configuration file is looked for unless another path is given.
pub const CONFIG_SYS_PATH: &'static str = "/etc/argonone/config.toml";

/// What is wrong with a configuration.
#[derive(Copy, Clone, Debug, PartialEq, Eq, Structural)]
pub enum ConfigCheckError {
    /// The lowest temperature is not below the highest.
    InvalidTemperatureRange,
    /// The lowest fan speed is not below the highest.
    InvalidFanSpeedRange,
    /// The lowest fan speed is above 100 percent.
    InvalidFanSpeedMin,
    /// The highest fan speed is above 100 percent.
    InvalidFanSpeedMax,
}

/// How the fan follows the temperature, and how often.
#[derive(Copy, Clone, Eq, PartialEq, Ord, PartialOrd, Hash, Debug)]
pub struct Config {
    /// Time interval to check temperature and update fan speed
    pub update_interval_seconds: UpdateIntervalSeconds,
    /// Min temp, degrees C
    pub temperature_min: DegreesC,
    /// Max temp, degrees C
    pub temperature_max: DegreesC,
    /// Min fan speed percentage
    pub fan_speed_min: FanSpeed,
    /// Max fan speed percentage
    pub fan_speed_max: FanSpeed,
}

/// What a [`Config`] stands for: its five numbers, in seconds, degrees and
/// percent.
pub ghost struct Settings {
    pub update_interval_seconds: nat,
    pub temperature_min: nat,
    pub temperature_max: nat,
    pub fan_speed_min: nat,
    pub fan_speed_max: nat,
}

impl Settings {
    /// The temperatures rise, the fan speeds rise, and both fan speeds are
    /// percentages.
    pub open spec fn is_valid(self) -> bool {
        &&& self.temperature_min < self.temperature_max
        &&& self.fan_speed_min < self.fan_speed_max
        &&& self.fan_speed_min <= FanSpeed::MAX_PERCENT
        &&& self.fan_speed_max <= FanSpeed::MAX_PERCENT
    }

    /// The first of the four rules that the settings break, in the order in
    /// which the rules are checked, or `None` where they break none.
    pub open spec fn first_violation(self) -> Option<ConfigCheckError> {
        if self.temperature_min >= self.temperature_max {
            Some(ConfigCheckError::InvalidTemperatureRange)
        } else if self.fan_speed_min >= self.fan_speed_max {
            Some(ConfigCheckError::InvalidFanSpeedRange)
        } else if self.fan_speed_min > FanSpeed::MAX_PERCENT {
            Some(ConfigCheckError::InvalidFanSpeedMin)
        } else if self.fan_speed_max > FanSpeed::MAX_PERCENT {
            Some(ConfigCheckError::InvalidFanSpeedMax)
        } else {
            None
        }
    }

    /// The fan curve that the settings describe.
    pub open spec fn curve(self) -> FanCurve {
        FanCurve::over(
            self.temperature_min,
            self.temperature_max,
            self.fan_speed_min,
            self.fan_speed_max,
        )
    }

    /// Valid settings describe a well-formed fan curve, on which the fan
    /// speed for every temperature lies between the lowest and the highest
    /// fan speed of the settings.
    pub proof fn lemma_valid_settings_bound_the_fan_speed(self, t: nat)
        requires
            self.is_valid(),
            self.temperature_max <= DegreesC::MAX_DEGREES,
        ensures
            self.curve().wf(),
            self.fan_speed_min <= self.curve().speed(t) <= self.fan_speed_max,
    {
        FanCurve::lemma_over_wf(
            self.temperature_min,
            self.temperature_max,
            self.fan_speed_min,
            self.fan_speed_max,
        );
        self.curve().lemma_speed_within_range(t);
    }

    /// Settings break no rule exactly when they are valid.
    pub proof fn lemma_no_violation_iff_valid(self)
        ensures
            self.first_violation() is None <==> self.is_valid(),
    {
    }

    /// Where the temperature range does not rise, that is what is reported,
    /// whatever else is wrong.
    pub proof fn lemma_temperature_range_is_checked_first(self)
        requires
            self.temperature_min >= self.temperature_max,
        ensures
            self.first_violation() == Some(ConfigCheckError::InvalidTemperatureRange),
    {
    }

    /// Each error is reported for exactly the settings that keep the rules
    /// before it and break its own.
    pub proof fn lemma_violations(self)
        ensures
            self.first_violation() == Some(ConfigCheckError::InvalidTemperatureRange)
                <==> self.temperature_min >= self.temperature_max,
            self.first_violation() == Some(ConfigCheckError::InvalidFanSpeedRange)
                <==> self.temperature_min < self.temperature_max && self.fan_speed_min
                >= self.fan_speed_max,
            self.first_violation() == Some(ConfigCheckError::InvalidFanSpeedMin)
                <==> self.temperature_min < self.temperature_max && self.fan_speed_min
                < self.fan_speed_max && self.fan_speed_min > FanSpeed::MAX_PERCENT,
            self.first_violation() == Some(ConfigCheckError::InvalidFanSpeedMax)
                <==> self.temperature_min < self.temperature_max && self.fan_speed_min
                < self.fan_speed_max && self.fan_speed_min <= FanSpeed::MAX_PERCENT
                && self.fan_speed_max > FanSpeed::MAX_PERCENT,
    {
    }
}

impl View for Config {
    type V = Settings;

    open spec fn view(&self) -> Settings {
        Settings {
            update_interval_seconds: self.update_interval_seconds@,
            temperature_min: self.temperature_min@,
            temperature_max: self.temperature_max@,
            fan_speed_min: self.fan_speed_min@,
            fan_speed_max: self.fan_speed_max@,
        }
    }
}

impl Default for Config {
    /// Every 30 seconds; from 33 to 65 degrees the fan goes from rest to
    /// full speed.
    fn default() -> (c: Config)
        ensures
            c@ == (Settings {
                update_interval_seconds: 30,
                temperature_min: 33,
                temperature_max: 65,
                fan_speed_min: 0,
                fan_speed_max: 100,
            }),
            c@.is_valid(),
    {
        Config {
            update_interval_seconds: UpdateIntervalSeconds::new(30).unwrap(),
            temperature_min: DegreesC(33),
            temperature_max: DegreesC(65),
            fan_speed_min: FanSpeed::minimum(),
            fan_speed_max: FanSpeed::maximum(),
        }
    }
}

impl Config {
    /// Checks the four rules in their order and reports the first that is
    /// broken.
    pub fn check(&self) -> (r: Result<(), ConfigCheckError>)
        ensures
            r == match self@.first_violation() {
                None => Ok::<(), ConfigCheckError>(()),
                Some(e) => Err::<(), ConfigCheckError>(e),
            },
            r is Ok <==> self@.is_valid(),
    {
        let fan_speed_min = u8::from(self.fan_speed_min);
        let fan_speed_max = u8::from(self.fan_speed_max);
        proof {
            FanSpeed::lemma_view(self.fan_speed_min, self.fan_speed_max);
            FanSpeed::lemma_view(self.fan_speed_max, self.fan_speed_min);
        }
        if self.temperature_min.0 >= self.temperature_max.0 {
            Err(ConfigCheckError::InvalidTemperatureRange)
        } else if fan_speed_min >= fan_speed_max {
            Err(ConfigCheckError::InvalidFanSpeedRange)
        } else if fan_speed_min > FanSpeed::MAX_PERCENT {
            Err(ConfigCheckError::InvalidFanSpeedMin)
        } else if fan_speed_max > FanSpeed::MAX_PERCENT {
            Err(ConfigCheckError::InvalidFanSpeedMax)
        } else {
            Ok(())
        }
    }
}

} // verus!
