use crate::text::{
    decimal_string, decimal_text, lemma_decimal_text_reads_back, parse_u8, str_trim,
    trim, trimmed_number, u8_parse_error,
};
use std::num::ParseIntError;
use std::str::FromStr;
use vstd::prelude::*;
use vstd::std_specs::convert::FromSpecImpl;
use vstd::string::StringExecFns;

verus! {

/// Why a text is not a fan speed.
#[derive(Debug, Clone, PartialEq)]
pub enum ParseFanSpeedError {
    /// The text is not a number that fits a byte.
    ParseIntError(ParseIntError),
    /// The number, which the error holds, is above 100.
    Invalid(u8),
}

impl From<ParseIntError> for ParseFanSpeedError {
    fn from(e: ParseIntError) -> (r: ParseFanSpeedError) {
        ParseFanSpeedError::ParseIntError(e)
    }
}

impl FromSpecImpl<ParseIntError> for ParseFanSpeedError {
    open spec fn obeys_from_spec() -> bool {
        true
    }

    open spec fn from_spec(e: ParseIntError) -> ParseFanSpeedError {
        ParseFanSpeedError::ParseIntError(e)
    }
}

/// A fan speed as a percentage of full speed.
///
/// The wrapped byte is a valid fan speed when it is at most
/// [`FanSpeed::MAX_PERCENT`]; see [`FanSpeed::is_valid`]. Every constructor
/// but [`FanSpeed::from_raw`] yields a valid fan speed.
#[derive(Copy, Clone, Eq, PartialEq, Ord, PartialOrd, Hash, Debug)]
pub struct FanSpeed(u8);

impl View for FanSpeed {
    type V = nat;

    /// The percentage that the fan speed holds.
    closed spec fn view(&self) -> nat {
        self.0 as nat
    }
}

impl FanSpeed {
    /// The highest valid percentage.
    pub const MAX_PERCENT: u8 = 100;

    /// The lowest valid percentage.
    pub const MIN_PERCENT: u8 = 0;

    /// The percentage at which the fan runs before the first temperature
    /// reading.
    pub const DEFAULT_PERCENT: u8 = 25;

    /// Whether the percentage is within `0..=100`.
    pub open spec fn is_valid(self) -> bool {
        self@ <= Self::MAX_PERCENT
    }

    /// Two fan speeds that hold the same percentage are the same fan speed,
    /// and every percentage is a byte.
    pub proof fn lemma_view(a: FanSpeed, b: FanSpeed)
        ensures
            a@ <= u8::MAX,
            a@ == b@ ==> a == b,
    {
    }

    /// The decimal text of the percentage of a valid fan speed reads back
    /// as that fan speed: [`FanSpeed::from_str`] returns `Ok` of it.
    pub proof fn lemma_decimal_text_reads_back(self)
        requires
            self.is_valid(),
        ensures
            trimmed_number(decimal_text(self@), u8::MAX as nat) == Some(self@),
            self@ <= Self::MAX_PERCENT,
    {
        lemma_decimal_text_reads_back(self@, u8::MAX as nat);
    }

    /// The fan speed of `fs` percent, or `None` when `fs` is above 100.
    pub fn new(fs: u8) -> (r: Option<FanSpeed>)
        ensures
            fs <= Self::MAX_PERCENT ==> r is Some && r.unwrap()@ == fs,
            fs > Self::MAX_PERCENT ==> r is None,
    {
        if fs > Self::MAX_PERCENT {
            None
        } else {
            Some(FanSpeed(fs))
        }
    }

    /// The fan speed of `fs` percent, for a caller that has already
    /// established the range.
    pub fn new_unchecked(fs: u8) -> (r: FanSpeed)
        requires
            fs <= Self::MAX_PERCENT,
        ensures
            r@ == fs,
            r.is_valid(),
    {
        FanSpeed(fs)
    }

    /// Wraps a percentage taken from a stored configuration, whatever its
    /// range. The result is valid exactly when `raw` is at most 100.
    pub fn from_raw(raw: u8) -> (r: FanSpeed)
        ensures
            r@ == raw,
    {
        FanSpeed(raw)
    }

    /// Full speed.
    pub fn maximum() -> (r: FanSpeed)
        ensures
            r@ == Self::MAX_PERCENT,
    {
        FanSpeed(Self::MAX_PERCENT)
    }

    /// The fan at rest.
    pub fn minimum() -> (r: FanSpeed)
        ensures
            r@ == Self::MIN_PERCENT,
    {
        FanSpeed(Self::MIN_PERCENT)
    }

    /// The fan speed for people to read: the percentage in decimal digits,
    /// then a percent sign.
    pub fn to_string(&self) -> (r: String)
        ensures
            r@ == decimal_text(self@) + seq!['%'],
    {
        let mut r = decimal_string(self.0 as u32);
        proof {
            reveal_strlit("%");
        }
        r.append("%");
        r
    }
}

impl FromStr for FanSpeed {
    type Err = ParseFanSpeedError;

    /// Reads a fan speed from its percentage in decimal digits, with white
    /// space around them allowed. A text that does not write a byte gives
    /// the error of the number parser, and a byte above 100 the error that
    /// holds it.
    fn from_str(s: &str) -> (r: Result<FanSpeed, ParseFanSpeedError>)
        ensures
            match trimmed_number(s@, u8::MAX as nat) {
                None => r == Err::<FanSpeed, ParseFanSpeedError>(
                    ParseFanSpeedError::ParseIntError(u8_parse_error(trim(s@))),
                ),
                Some(v) => if v > FanSpeed::MAX_PERCENT {
                    r == Err::<FanSpeed, ParseFanSpeedError>(ParseFanSpeedError::Invalid(v as u8))
                } else {
                    r matches Ok(fs) && fs@ == v
                },
            },
    {
        match parse_u8(str_trim(s)) {
            Err(e) => Err(ParseFanSpeedError::from(e)),
            Ok(num) => if num > FanSpeed::MAX_PERCENT {
                Err(ParseFanSpeedError::Invalid(num))
            } else {
                Ok(FanSpeed(num))
            },
        }
    }
}

impl From<FanSpeed> for u8 {
    fn from(fs: FanSpeed) -> (r: u8) {
        fs.0
    }
}

impl FromSpecImpl<FanSpeed> for u8 {
    open spec fn obeys_from_spec() -> bool {
        true
    }

    open spec fn from_spec(fs: FanSpeed) -> u8 {
        fs@ as u8
    }
}

impl Default for FanSpeed {
    fn default() -> (r: FanSpeed)
        ensures
            r@ == Self::DEFAULT_PERCENT,
    {
        FanSpeed(Self::DEFAULT_PERCENT)
    }
}

} // verus!
