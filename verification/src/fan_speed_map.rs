use crate::degrees::DegreesC;
use crate::fan_speed::FanSpeed;
use crate::interpolation::{
    clamp, interpolate, lemma_interpolate_bounds, lemma_interpolate_end_points,
    lemma_interpolate_monotonic, map_range,
};
use std::collections::HashMap;
use vstd::prelude::*;

verus! {

/// What a [`FanSpeedMap`] stands for: the calibrated range and the fan speed
/// stored for each temperature of it, all in whole degrees and percent.
pub ghost struct FanCurve {
    pub temperature_min: nat,
    pub temperature_max: nat,
    pub fan_speed_min: nat,
    pub fan_speed_max: nat,
    pub table: Map<nat, nat>,
}

/// The fan speed that the table holds for the temperature `t` of the
/// calibrated range: the point on the straight line from
/// `(temperature_min, fan_speed_min)` to `(temperature_max, fan_speed_max)`,
/// rounded down and limited to the fan speed range.
pub open spec fn table_speed(
    temperature_min: nat,
    temperature_max: nat,
    fan_speed_min: nat,
    fan_speed_max: nat,
    t: nat,
) -> nat {
    clamp(
        interpolate(
            temperature_min as int,
            temperature_max as int,
            fan_speed_min as int,
            fan_speed_max as int,
            t as int,
        ),
        fan_speed_min as int,
        fan_speed_max as int,
    ) as nat
}

impl FanCurve {
    /// The curve over the given ranges, with its whole table.
    pub open spec fn over(
        temperature_min: nat,
        temperature_max: nat,
        fan_speed_min: nat,
        fan_speed_max: nat,
    ) -> FanCurve {
        FanCurve {
            temperature_min,
            temperature_max,
            fan_speed_min,
            fan_speed_max,
            table: Map::new(
                |t: nat| temperature_min <= t <= temperature_max,
                |t: nat|
                    table_speed(temperature_min, temperature_max, fan_speed_min, fan_speed_max, t),
            ),
        }
    }

    /// Both ranges rise, the fan speeds are percentages, and the table holds
    /// the interpolated fan speed for each temperature of the calibrated
    /// range and for no other.
    pub open spec fn wf(self) -> bool {
        &&& self.temperature_min < self.temperature_max <= DegreesC::MAX_DEGREES
        &&& self.fan_speed_min < self.fan_speed_max <= FanSpeed::MAX_PERCENT
        &&& self == FanCurve::over(
            self.temperature_min,
            self.temperature_max,
            self.fan_speed_min,
            self.fan_speed_max,
        )
    }

    /// The fan speed for the temperature `t`: the lowest fan speed below the
    /// calibrated range, the highest above it, the table's entry inside.
    pub open spec fn speed(self, t: nat) -> nat {
        if t < self.temperature_min {
            self.fan_speed_min
        } else if t > self.temperature_max {
            self.fan_speed_max
        } else {
            self.table[t]
        }
    }

    /// A curve over rising ranges of percentages is well formed.
    pub proof fn lemma_over_wf(
        temperature_min: nat,
        temperature_max: nat,
        fan_speed_min: nat,
        fan_speed_max: nat,
    )
        requires
            temperature_min < temperature_max <= DegreesC::MAX_DEGREES,
            fan_speed_min < fan_speed_max <= FanSpeed::MAX_PERCENT,
        ensures
            FanCurve::over(temperature_min, temperature_max, fan_speed_min, fan_speed_max).wf(),
    {
    }

    /// Inside the calibrated range the table holds the interpolated fan
    /// speed as it is: limiting it to the fan speed range changes nothing.
    pub proof fn lemma_table_is_interpolation(self, t: nat)
        requires
            self.wf(),
            self.temperature_min <= t <= self.temperature_max,
        ensures
            self.table.dom().contains(t),
            self.table[t] == interpolate(
                self.temperature_min as int,
                self.temperature_max as int,
                self.fan_speed_min as int,
                self.fan_speed_max as int,
                t as int,
            ),
            self.fan_speed_min <= self.table[t] <= self.fan_speed_max,
    {
        lemma_interpolate_bounds(
            self.temperature_min as int,
            self.temperature_max as int,
            self.fan_speed_min as int,
            self.fan_speed_max as int,
            t as int,
        );
    }

    /// Whatever the temperature, the fan speed lies between the lowest and
    /// the highest fan speed of the curve.
    pub proof fn lemma_speed_within_range(self, t: nat)
        requires
            self.wf(),
        ensures
            self.fan_speed_min <= self.speed(t) <= self.fan_speed_max,
    {
        if self.temperature_min <= t <= self.temperature_max {
            self.lemma_table_is_interpolation(t);
        }
    }

    /// At the lowest calibrated temperature the fan speed is exactly the
    /// lowest fan speed, and at the highest exactly the highest.
    pub proof fn lemma_speed_at_end_points(self)
        requires
            self.wf(),
        ensures
            self.speed(self.temperature_min) == self.fan_speed_min,
            self.speed(self.temperature_max) == self.fan_speed_max,
    {
        self.lemma_table_is_interpolation(self.temperature_min);
        self.lemma_table_is_interpolation(self.temperature_max);
        lemma_interpolate_end_points(
            self.temperature_min as int,
            self.temperature_max as int,
            self.fan_speed_min as int,
            self.fan_speed_max as int,
        );
    }

    /// Below the calibrated range the fan speed is the lowest fan speed, and
    /// above it the highest.
    pub proof fn lemma_speed_outside_range(self, t: nat)
        requires
            self.wf(),
        ensures
            t < self.temperature_min ==> self.speed(t) == self.fan_speed_min,
            t > self.temperature_max ==> self.speed(t) == self.fan_speed_max,
    {
    }

    /// A warmer reading never gives a lower fan speed: inside the calibrated
    /// range, and so over all temperatures.
    pub proof fn lemma_speed_monotonic(self, a: nat, b: nat)
        requires
            self.wf(),
            a <= b,
        ensures
            self.speed(a) <= self.speed(b),
    {
        self.lemma_speed_within_range(a);
        self.lemma_speed_within_range(b);
        if self.temperature_min <= a && b <= self.temperature_max {
            self.lemma_table_is_interpolation(a);
            self.lemma_table_is_interpolation(b);
            lemma_interpolate_monotonic(
                self.temperature_min as int,
                self.temperature_max as int,
                self.fan_speed_min as int,
                self.fan_speed_max as int,
                a as int,
                b as int,
            );
        }
    }
}

/// Calls `num::clamp` on bytes. As that function's source shows, the result
/// is `min` for an input below `min`, `max` for an input above `max`, and the
/// input itself otherwise; in a debug build it panics unless `min <= max`.
#[verifier::external_body]
fn clamp_u8(input: u8, min: u8, max: u8) -> (r: u8)
    requires
        min <= max,
    ensures
        r == clamp(input as int, min as int, max as int),
{
    num::clamp(input, min, max)
}

/// A table from each temperature of a calibrated range to a fan speed,
/// computed once and then only read.
#[derive(Debug, PartialEq, Eq)]
pub struct FanSpeedMap {
    temperature_min: DegreesC,
    temperature_max: DegreesC,
    fan_speed_min: FanSpeed,
    fan_speed_max: FanSpeed,
    map: HashMap<u8, FanSpeed>,
}

impl View for FanSpeedMap {
    type V = FanCurve;

    closed spec fn view(&self) -> FanCurve {
        FanCurve {
            temperature_min: self.temperature_min@,
            temperature_max: self.temperature_max@,
            fan_speed_min: self.fan_speed_min@,
            fan_speed_max: self.fan_speed_max@,
            table: Map::new(
                |t: nat| t <= u8::MAX && self.map@.contains_key(t as u8),
                |t: nat| self.map@[t as u8]@,
            ),
        }
    }
}

impl Clone for FanSpeedMap {
    fn clone(&self) -> (copy: FanSpeedMap)
        ensures
            copy@ == self@,
    {
        proof {
            use_type_invariant(self);
        }
        FanSpeedMap {
            temperature_min: self.temperature_min,
            temperature_max: self.temperature_max,
            fan_speed_min: self.fan_speed_min,
            fan_speed_max: self.fan_speed_max,
            map: self.map.clone(),
        }
    }
}

impl FanSpeedMap {
    #[verifier::type_invariant]
    spec fn inv(self) -> bool {
        self@.wf()
    }

    /// Builds the table for the calibrated range from `temperature_min` to
    /// `temperature_max`, over which the fan speed rises from
    /// `fan_speed_min` to `fan_speed_max`.
    pub fn new(
        temperature_min: DegreesC,
        temperature_max: DegreesC,
        fan_speed_min: FanSpeed,
        fan_speed_max: FanSpeed,
    ) -> (m: FanSpeedMap)
        requires
            temperature_min@ < temperature_max@,
            fan_speed_min@ < fan_speed_max@,
            fan_speed_max.is_valid(),
        ensures
            m@ == FanCurve::over(
                temperature_min@,
                temperature_max@,
                fan_speed_min@,
                fan_speed_max@,
            ),
            m@.wf(),
    {
        broadcast use vstd::std_specs::hash::group_hash_axioms;

        let t_min = u8::from(temperature_min);
        let t_max = u8::from(temperature_max);
        let s_min = u8::from(fan_speed_min);
        let s_max = u8::from(fan_speed_max);

        let mut map: HashMap<u8, FanSpeed> = HashMap::new();
        let mut next: u16 = t_min as u16;
        while next <= t_max as u16
            invariant
                t_min < t_max,
                s_min < s_max <= FanSpeed::MAX_PERCENT,
                t_min <= next <= t_max + 1,
                forall|k: u8| #[trigger] map@.contains_key(k) <==> t_min <= k < next,
                forall|k: u8|
                    t_min <= k < next ==> (#[trigger] map@[k])@ == table_speed(
                        t_min as nat,
                        t_max as nat,
                        s_min as nat,
                        s_max as nat,
                        k as nat,
                    ),
            decreases t_max + 1 - next,
        {
            let t = next as u8;
            let s = clamp_u8(map_range((t_min, t_max), (s_min, s_max), t), s_min, s_max);
            map.insert(t, FanSpeed::new_unchecked(s));
            next += 1;
        }

        proof {
            let stored = Map::new(
                |t: nat| t <= u8::MAX && map@.contains_key(t as u8),
                |t: nat| map@[t as u8]@,
            );
            let curve = FanCurve::over(
                temperature_min@,
                temperature_max@,
                fan_speed_min@,
                fan_speed_max@,
            );
            assert(stored =~= curve.table);
        }
        FanSpeedMap { temperature_min, temperature_max, fan_speed_min, fan_speed_max, map }
    }

    /// The fan speed for the temperature `temp`.
    pub fn get(&self, temp: DegreesC) -> (r: FanSpeed)
        ensures
            self@.wf(),
            r@ == self@.speed(temp@),
            self@.fan_speed_min <= r@ <= self@.fan_speed_max,
            r.is_valid(),
    {
        broadcast use vstd::std_specs::hash::group_hash_axioms;

        proof {
            use_type_invariant(self);
            self@.lemma_speed_within_range(temp@);
        }
        if temp.0 < self.temperature_min.0 {
            self.fan_speed_min
        } else if temp.0 > self.temperature_max.0 {
            self.fan_speed_max
        } else {
            assert(self@.table.dom().contains(temp@));
            *self.map.get(&temp.0).unwrap()
        }
    }
}

} // verus!
