use crate::binary32::{saturating_byte, saturating_floor};
use crate::text::{
    decimal_string, decimal_text, lemma_decimal_text_reads_back, parse_u8, str_trim,
    trim, trimmed_number, u8_parse_error,
};
use std::num::ParseIntError;
use std::str::FromStr;
use vstd::prelude::*;
use vstd::std_specs::convert::FromSpecImpl;
use vstd::string::StringExecFns;

verus! {

/// A temperature in whole degrees Celsius. Every byte is a temperature.
#[derive(Copy, Clone, Eq, PartialEq, Ord, PartialOrd, Hash, Debug)]
pub struct DegreesC(pub u8);

impl View for DegreesC {
    type V = nat;

    /// The number of degrees.
    open spec fn view(&self) -> nat {
        self.0 as nat
    }
}

impl DegreesC {
    /// The highest temperature that can be represented, in degrees.
    pub const MAX_DEGREES: u8 = 255;

    /// The lowest temperature that can be represented, in degrees.
    pub const MIN_DEGREES: u8 = 0;

    /// The decimal text of the degrees of a temperature reads back as that
    /// temperature: [`DegreesC::from_str`] returns `Ok` of it.
    pub proof fn lemma_decimal_text_reads_back(self)
        ensures
            trimmed_number(decimal_text(self@), u8::MAX as nat) == Some(self@),
    {
        lemma_decimal_text_reads_back(self@, u8::MAX as nat);
    }

    /// The temperature for a reading in degrees that comes as the bits of a
    /// single-precision number, as `f32::to_bits` gives them. The reading is
    /// limited, not refused: nothing lies below zero degrees or above 255,
    /// a part of a degree is dropped, and a NaN counts as zero.
    pub fn from_f32_bits(bits: u32) -> (t: DegreesC)
        ensures
            t@ == saturating_floor(bits, Self::MAX_DEGREES as nat),
    {
        DegreesC(saturating_byte(bits))
    }

    /// The highest temperature that can be represented.
    pub fn maximum() -> (t: DegreesC)
        ensures
            t == DegreesC(Self::MAX_DEGREES),
    {
        DegreesC(Self::MAX_DEGREES)
    }

    /// The lowest temperature that can be represented.
    pub fn minimum() -> (t: DegreesC)
        ensures
            t == DegreesC(Self::MIN_DEGREES),
    {
        DegreesC(Self::MIN_DEGREES)
    }

    /// The temperature for people to read: the degrees in decimal digits,
    /// then a space and the letter `C`.
    pub fn to_string(&self) -> (r: String)
        ensures
            r@ == decimal_text(self@) + seq![' ', 'C'],
    {
        let mut r = decimal_string(self.0 as u32);
        proof {
            reveal_strlit(" C");
        }
        r.append(" C");
        r
    }
}

impl From<u8> for DegreesC {
    fn from(t: u8) -> (r: DegreesC) {
        DegreesC(t)
    }
}

impl FromSpecImpl<u8> for DegreesC {
    open spec fn obeys_from_spec() -> bool {
        true
    }

    open spec fn from_spec(t: u8) -> DegreesC {
        DegreesC(t)
    }
}

impl From<DegreesC> for u8 {
    fn from(t: DegreesC) -> (r: u8) {
        t.0
    }
}

impl FromSpecImpl<DegreesC> for u8 {
    open spec fn obeys_from_spec() -> bool {
        true
    }

    open spec fn from_spec(t: DegreesC) -> u8 {
        t.0
    }
}

impl FromStr for DegreesC {
    type Err = ParseIntError;

    /// Reads a temperature from its degrees in decimal digits, with white
    /// space around them allowed. A text that does not write a byte gives
    /// the error of the number parser.
    fn from_str(s: &str) -> (r: Result<DegreesC, ParseIntError>)
        ensures
            match trimmed_number(s@, u8::MAX as nat) {
                None => r == Err::<DegreesC, ParseIntError>(u8_parse_error(trim(s@))),
                Some(v) => r == Ok::<DegreesC, ParseIntError>(DegreesC(v as u8)),
            },
    {
        match parse_u8(str_trim(s)) {
            Err(e) => Err(e),
            Ok(num) => Ok(DegreesC(num)),
        }
    }
}

} // verus!
