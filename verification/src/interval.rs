use crate::clock::{duration_from_secs, duration_nanos};
use crate::text::{
    decimal_string, decimal_text, lemma_decimal_text_reads_back, parse_u32, str_trim,
    trim, trimmed_number, u32_parse_error,
};
use std::num::ParseIntError;
use std::str::FromStr;
use std::time::Duration;
use vstd::prelude::*;
use vstd::std_specs::convert::FromSpecImpl;
use vstd::string::StringExecFns;

verus! {

/// Why a text is not an update interval.
#[derive(Debug, Clone, PartialEq)]
pub enum ParseUpdateIntervalSecondsError {
    /// The text is not a number that fits 32 bits.
    ParseError(ParseIntError),
    /// The number is zero.
    Invalid,
}

impl From<ParseIntError> for ParseUpdateIntervalSecondsError {
    fn from(e: ParseIntError) -> (r: ParseUpdateIntervalSecondsError) {
        ParseUpdateIntervalSecondsError::ParseError(e)
    }
}

impl FromSpecImpl<ParseIntError> for ParseUpdateIntervalSecondsError {
    open spec fn obeys_from_spec() -> bool {
        true
    }

    open spec fn from_spec(e: ParseIntError) -> ParseUpdateIntervalSecondsError {
        ParseUpdateIntervalSecondsError::ParseError(e)
    }
}

/// The time between two updates of the fan speed: a whole number of
/// seconds, never zero.
#[derive(Copy, Clone, Eq, PartialEq, Ord, PartialOrd, Hash, Debug)]
pub struct UpdateIntervalSeconds(u32);

impl View for UpdateIntervalSeconds {
    type V = nat;

    /// The number of seconds.
    closed spec fn view(&self) -> nat {
        self.0 as nat
    }
}

impl UpdateIntervalSeconds {
    #[verifier::type_invariant]
    spec fn positive(self) -> bool {
        self.0 > 0
    }

    /// Two intervals of the same number of seconds are the same interval,
    /// and every number of seconds fits 32 bits.
    pub proof fn lemma_view(a: UpdateIntervalSeconds, b: UpdateIntervalSeconds)
        ensures
            a@ <= u32::MAX,
            a@ == b@ ==> a == b,
    {
    }

    /// The decimal text of the seconds of an interval reads back as that
    /// interval: [`UpdateIntervalSeconds::from_str`] returns `Ok` of it.
    pub proof fn lemma_decimal_text_reads_back(seconds: nat)
        requires
            0 < seconds <= u32::MAX,
        ensures
            trimmed_number(decimal_text(seconds), u32::MAX as nat) == Some(seconds),
    {
        lemma_decimal_text_reads_back(seconds, u32::MAX as nat);
    }

    /// The interval of `seconds` seconds, or `None` when `seconds` is zero.
    pub fn new(seconds: u32) -> (r: Option<UpdateIntervalSeconds>)
        ensures
            seconds > 0 ==> r is Some && r.unwrap()@ == seconds,
            seconds == 0 ==> r is None,
    {
        if seconds == 0 {
            None
        } else {
            Some(UpdateIntervalSeconds(seconds))
        }
    }

    /// The number of seconds, which is not zero.
    pub fn get(self) -> (seconds: u32)
        ensures
            seconds == self@,
            seconds > 0,
    {
        proof {
            use_type_invariant(self);
        }
        self.0
    }

    /// The interval as a duration of as many whole seconds.
    pub fn to_duration(self) -> (d: Duration)
        ensures
            duration_nanos(d) == self@ * 1_000_000_000,
            duration_nanos(d) > 0,
    {
        proof {
            use_type_invariant(self);
        }
        duration_from_secs(self.0 as u64)
    }

    /// The interval for people to read: the seconds in decimal digits,
    /// then the letter `s`.
    pub fn to_string(&self) -> (r: String)
        ensures
            r@ == decimal_text(self@) + seq!['s'],
    {
        let mut r = decimal_string(self.0);
        proof {
            reveal_strlit("s");
        }
        r.append("s");
        r
    }
}

impl From<UpdateIntervalSeconds> for Duration {
    fn from(i: UpdateIntervalSeconds) -> (d: Duration)
        ensures
            duration_nanos(d) == i@ * 1_000_000_000,
    {
        i.to_duration()
    }
}

impl FromSpecImpl<UpdateIntervalSeconds> for Duration {
    /// A duration is known by its length alone, which `from` states.
    open spec fn obeys_from_spec() -> bool {
        false
    }

    open spec fn from_spec(i: UpdateIntervalSeconds) -> Duration {
        arbitrary()
    }
}

impl FromStr for UpdateIntervalSeconds {
    type Err = ParseUpdateIntervalSecondsError;

    /// Reads an interval from its seconds in decimal digits, with white
    /// space around them allowed. A text that does not write a number of 32
    /// bits gives the error of the number parser, and zero is invalid.
    fn from_str(s: &str) -> (r: Result<UpdateIntervalSeconds, ParseUpdateIntervalSecondsError>)
        ensures
            match trimmed_number(s@, u32::MAX as nat) {
                None => r == Err::<UpdateIntervalSeconds, ParseUpdateIntervalSecondsError>(
                    ParseUpdateIntervalSecondsError::ParseError(u32_parse_error(trim(s@))),
                ),
                Some(v) => if v == 0 {
                    r == Err::<UpdateIntervalSeconds, ParseUpdateIntervalSecondsError>(
                        ParseUpdateIntervalSecondsError::Invalid,
                    )
                } else {
                    r matches Ok(i) && i@ == v
                },
            },
    {
        match parse_u32(str_trim(s)) {
            Err(e) => Err(ParseUpdateIntervalSecondsError::from(e)),
            Ok(sec) => match UpdateIntervalSeconds::new(sec) {
                None => Err(ParseUpdateIntervalSecondsError::Invalid),
                Some(i) => Ok(i),
            },
        }
    }
}

} // verus!
