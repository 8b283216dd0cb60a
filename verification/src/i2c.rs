use crate::text::{
    decimal_string, decimal_text, lemma_decimal_text_reads_back, lemma_digit_is_no_space,
    lemma_number_text_round_trip, lemma_number_text_value, lemma_trim_is_identity, parse_u16,
    parse_u8, parse_unsigned, str_starts_with, str_trim, str_trim_start_matches, strip_leading,
    trim, trimmed_number, u16_from_str_radix, u16_parse_error, u16_radix_parse_error,
    u8_parse_error, upper_hex_string, upper_hex_text,
};
use std::num::ParseIntError;
use std::str::FromStr;
use vstd::prelude::*;
use vstd::std_specs::convert::FromSpecImpl;
use vstd::string::StringExecFns;

verus! {

/// The I2C bus that the fan controller sits on unless another is chosen.
pub const I2C_BUS: u8 = 1;

/// The address at which the fan controller answers unless another is chosen.
pub const I2C_FAN_CTRLR_ADDR: u16 = 0x1A;

/// The number of an I2C bus.
#[derive(Copy, Clone, Eq, PartialEq, Ord, PartialOrd, Hash, Debug)]
pub struct I2cBus(pub u8);

impl View for I2cBus {
    type V = nat;

    /// The number of the bus.
    open spec fn view(&self) -> nat {
        self.0 as nat
    }
}

impl I2cBus {
    /// The text that [`I2cBus::to_string`] gives reads back as the same
    /// bus: [`I2cBus::from_str`] returns `Ok` of it.
    pub proof fn lemma_text_reads_back(self)
        ensures
            trimmed_number(decimal_text(self@), u8::MAX as nat) == Some(self@),
    {
        lemma_decimal_text_reads_back(self@, u8::MAX as nat);
    }

    /// The number of the bus in decimal digits.
    pub fn to_string(&self) -> (r: String)
        ensures
            r@ == decimal_text(self@),
    {
        decimal_string(self.0 as u32)
    }
}

impl Default for I2cBus {
    fn default() -> (r: I2cBus)
        ensures
            r == I2cBus(I2C_BUS),
    {
        I2cBus(I2C_BUS)
    }
}

impl From<I2cBus> for u8 {
    fn from(bus: I2cBus) -> (r: u8) {
        bus.0
    }
}

impl FromSpecImpl<I2cBus> for u8 {
    open spec fn obeys_from_spec() -> bool {
        true
    }

    open spec fn from_spec(bus: I2cBus) -> u8 {
        bus.0
    }
}

impl FromStr for I2cBus {
    type Err = ParseIntError;

    /// Reads the number of a bus from decimal digits, with white space
    /// around them allowed. A text that does not write a byte gives the
    /// error of the number parser.
    fn from_str(s: &str) -> (r: Result<I2cBus, ParseIntError>)
        ensures
            match trimmed_number(s@, u8::MAX as nat) {
                None => r == Err::<I2cBus, ParseIntError>(u8_parse_error(trim(s@))),
                Some(v) => r == Ok::<I2cBus, ParseIntError>(I2cBus(v as u8)),
            },
    {
        match parse_u8(str_trim(s)) {
            Err(e) => Err(e),
            Ok(num) => Ok(I2cBus(num)),
        }
    }
}

/// The address of a device on an I2C bus.
#[derive(Copy, Clone, Eq, PartialEq, Ord, PartialOrd, Hash, Debug)]
pub struct I2cAddress(pub u16);

impl View for I2cAddress {
    type V = nat;

    /// The address as a number.
    open spec fn view(&self) -> nat {
        self.0 as nat
    }
}

/// The mark of a hexadecimal address: the digit zero and the letter `x`.
pub open spec fn hex_mark() -> Seq<char> {
    seq!['0', 'x']
}

impl I2cAddress {
    /// The address that the text `s` writes, white space around it set
    /// aside: in hexadecimal digits of either case after the mark `0x`
    /// (which may be repeated), in decimal digits otherwise. `None` where
    /// the text writes no number or one that does not fit 16 bits.
    pub open spec fn of_text(s: Seq<char>) -> Option<nat> {
        let t = trim(s);
        if hex_mark().is_prefix_of(t) {
            parse_unsigned(strip_leading(t, hex_mark()), 16, u16::MAX as nat)
        } else {
            parse_unsigned(t, 10, u16::MAX as nat)
        }
    }

    /// The error for a text `s` that writes no address: that of the parser
    /// of hexadecimal numbers after the mark `0x`, that of the parser of
    /// decimal numbers otherwise.
    pub open spec fn error_of_text(s: Seq<char>) -> ParseIntError {
        let t = trim(s);
        if hex_mark().is_prefix_of(t) {
            u16_radix_parse_error(strip_leading(t, hex_mark()), 16)
        } else {
            u16_parse_error(t)
        }
    }

    /// The decimal text of an address reads back as that address:
    /// [`I2cAddress::from_str`] returns `Ok` of it.
    pub proof fn lemma_decimal_text_reads_back(self)
        ensures
            Self::of_text(decimal_text(self@)) == Some(self@),
    {
        lemma_number_text_round_trip(self@, 10, u16::MAX as nat);
        lemma_number_text_value(self@, 10);
    }

    /// The text that [`I2cAddress::to_string`] gives reads back as the
    /// same address: [`I2cAddress::from_str`] returns `Ok` of it.
    pub proof fn lemma_text_reads_back(self)
        ensures
            Self::of_text(hex_mark() + upper_hex_text(self@)) == Some(self@),
    {
        let digits = upper_hex_text(self@);
        let s = hex_mark() + digits;
        lemma_number_text_round_trip(self@, 16, u16::MAX as nat);
        lemma_number_text_value(self@, 16);
        lemma_digit_is_no_space(s.last(), 16);
        lemma_trim_is_identity(s);
        assert(hex_mark().is_prefix_of(s));
        assert(s.skip(2) =~= digits);
        assert(!hex_mark().is_prefix_of(digits));
        assert(strip_leading(s, hex_mark()) == strip_leading(s.skip(2), hex_mark()));
    }

    /// The address as it is usually written: the mark `0x`, then the
    /// hexadecimal digits with capital letters.
    pub fn to_string(&self) -> (r: String)
        ensures
            r@ == hex_mark() + upper_hex_text(self@),
    {
        proof {
            reveal_strlit("0x");
        }
        let mut r = "0x".to_owned();
        let digits = upper_hex_string(self.0 as u32);
        r.append(digits.as_str());
        r
    }
}

impl Default for I2cAddress {
    fn default() -> (r: I2cAddress)
        ensures
            r == I2cAddress(I2C_FAN_CTRLR_ADDR),
    {
        I2cAddress(I2C_FAN_CTRLR_ADDR)
    }
}

impl From<I2cAddress> for u16 {
    fn from(addr: I2cAddress) -> (r: u16) {
        addr.0
    }
}

impl FromSpecImpl<I2cAddress> for u16 {
    open spec fn obeys_from_spec() -> bool {
        true
    }

    open spec fn from_spec(addr: I2cAddress) -> u16 {
        addr.0
    }
}

impl FromStr for I2cAddress {
    type Err = ParseIntError;

    /// Reads an address, with white space around it allowed: hexadecimal
    /// after the mark `0x`, decimal otherwise. A text that does not write a
    /// number of 16 bits gives the error of the number parser.
    fn from_str(s: &str) -> (r: Result<I2cAddress, ParseIntError>)
        ensures
            match I2cAddress::of_text(s@) {
                None => r == Err::<I2cAddress, ParseIntError>(I2cAddress::error_of_text(s@)),
                Some(v) => r == Ok::<I2cAddress, ParseIntError>(I2cAddress(v as u16)),
            },
    {
        proof {
            reveal_strlit("0x");
        }
        let s = str_trim(s);
        let parsed = if str_starts_with(s, "0x") {
            u16_from_str_radix(str_trim_start_matches(s, "0x"), 16)
        } else {
            parse_u16(s)
        };
        match parsed {
            Err(e) => Err(e),
            Ok(num) => Ok(I2cAddress(num)),
        }
    }
}

} // verus!
