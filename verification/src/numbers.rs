//! Decimal parsing of unsigned 64-bit integers.
//!
//! Input-specification elements given as JSON strings are decimal numerals.
//! The parser accepts an optional leading `'+'` followed by one or more ASCII
//! digits, rejecting anything else, exactly as `u64::from_str` does: the
//! characters are scanned left to right, and the first problem found (a
//! non-digit, or an accumulated value exceeding `u64::MAX`) decides the error.

use vstd::prelude::*;
use vstd::string::StrSliceExecFns;

verus! {

/// Why a decimal string failed to parse as a `u64`.
#[derive(Clone, Copy, PartialEq, Eq, Structural, Debug)]
pub enum NumberError {
    /// The string was empty.
    Empty,
    /// A character other than an ASCII digit was found.
    InvalidDigit,
    /// The numeral's value does not fit in 64 bits.
    Overflow,
}

impl NumberError {
    /// The human-readable description of this failure, matching the wording
    /// of the standard library's integer parse errors.
    pub fn text(&self) -> (r: &'static str)
        ensures
            r@ == self.text_spec(),
    {
        match self {
            NumberError::Empty => "cannot parse integer from empty string",
            NumberError::InvalidDigit => "invalid digit found in string",
            NumberError::Overflow => "number too large to fit in target type",
        }
    }

    pub open spec fn text_spec(&self) -> Seq<char> {
        match self {
            NumberError::Empty => "cannot parse integer from empty string"@,
            NumberError::InvalidDigit => "invalid digit found in string"@,
            NumberError::Overflow => "number too large to fit in target type"@,
        }
    }
}

pub open spec fn is_dec_digit(c: char) -> bool {
    '0' <= c && c <= '9'
}

pub open spec fn digit_value(c: char) -> int {
    c as int - '0' as int
}

/// The numeral part of `s`: everything after an optional leading `'+'`.
pub open spec fn digits_of(s: Seq<char>) -> Seq<char> {
    if s.len() > 0 && s[0] == '+' {
        s.drop_first()
    } else {
        s
    }
}

/// A left-to-right scan of `s` with accumulator `acc`, mirroring how the
/// standard library reads a decimal numeral: the first non-digit gives
/// `InvalidDigit`, the first accumulation past `u64::MAX` gives `Overflow`.
pub open spec fn scan_digits(s: Seq<char>, acc: int) -> Result<int, NumberError>
    decreases s.len(),
{
    if s.len() == 0 {
        Ok(acc)
    } else if !is_dec_digit(s[0]) {
        Err(NumberError::InvalidDigit)
    } else if acc * 10 + digit_value(s[0]) > u64::MAX {
        Err(NumberError::Overflow)
    } else {
        scan_digits(s.drop_first(), acc * 10 + digit_value(s[0]))
    }
}

/// What parsing `s` as a `u64` yields: the numeral's value, or the first
/// failure found.
pub open spec fn parse_u64_spec(s: Seq<char>) -> Result<int, NumberError> {
    if s.len() == 0 {
        Err(NumberError::Empty)
    } else if digits_of(s).len() == 0 {
        Err(NumberError::InvalidDigit)
    } else {
        scan_digits(digits_of(s), 0)
    }
}

/// Whether `s` is a well-formed `u64` numeral.
pub open spec fn is_u64_numeral(s: Seq<char>) -> bool {
    parse_u64_spec(s) is Ok
}

/// The value of a well-formed `u64` numeral.
pub open spec fn u64_numeral_value(s: Seq<char>) -> int {
    parse_u64_spec(s)->Ok_0
}

/// Parse `s` as a decimal `u64`, exactly as the standard library would.
pub fn parse_u64(s: &str) -> (r: Result<u64, NumberError>)
    ensures
        r matches Ok(v) ==> parse_u64_spec(s@) == Result::<int, NumberError>::Ok(v as int),
        r matches Err(e) ==> parse_u64_spec(s@) == Result::<int, NumberError>::Err(e),
{
    let len: usize = s.unicode_len();
    if len == 0 {
        return Err(NumberError::Empty);
    }
    let start: usize = if s.get_char(0) == '+' {
        1
    } else {
        0
    };
    proof {
        assert(digits_of(s@) =~= s@.subrange(start as int, len as int));
    }
    if start == len {
        return Err(NumberError::InvalidDigit);
    }
    let mut val: u64 = 0;
    let mut i: usize = start;
    while i < len
        invariant
            start <= i <= len,
            len == s@.len(),
            digits_of(s@) == s@.subrange(start as int, len as int),
            digits_of(s@).len() > 0,
            scan_digits(digits_of(s@), 0) == scan_digits(
                s@.subrange(i as int, len as int),
                val as int,
            ),
        decreases len - i,
    {
        proof {
            assert(s@.subrange(i as int, len as int)[0] == s@[i as int]);
        }
        let c = s.get_char(i);
        let cu: u32 = c as u32;
        if cu < '0' as u32 || cu > '9' as u32 {
            return Err(NumberError::InvalidDigit);
        }
        let d: u64 = (cu - '0' as u32) as u64;
        let stepped: Option<u64> = match val.checked_mul(10) {
            Some(v10) => v10.checked_add(d),
            None => None,
        };
        match stepped {
            None => {
                return Err(NumberError::Overflow);
            },
            Some(nv) => {
                proof {
                    assert(s@.subrange(i as int, len as int).drop_first() =~= s@.subrange(
                        i + 1,
                        len as int,
                    ));
                }
                val = nv;
                i = i + 1;
            },
        }
    }
    proof {
        assert(s@.subrange(i as int, len as int) =~= Seq::<char>::empty());
    }
    Ok(val)
}

} // verus!
