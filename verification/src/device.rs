//! Device-level scalar types shared by all families: baud rates, raw
//! frequencies given as text, and the device-family tag.

use vstd::prelude::*;

use crate::error::Error;
use crate::text::{eq_ignore_case, parse_number, spec_all_digits, spec_digits_val, spec_is_digit,
    spec_lower, NumError};

verus! {

/// A serial baud rate.
#[derive(Clone, Copy, Debug, PartialEq, Eq, Structural)]
pub struct Baud(pub u32);

/// The baud rate a decimal string denotes, when it is one and fits.
pub open spec fn spec_baud_from_str(s: Seq<char>) -> Result<Baud, Error> {
    if spec_all_digits(s) && spec_digits_val(s) <= u32::MAX {
        Ok(Baud(spec_digits_val(s) as u32))
    } else {
        Err(Error::InvalidNumber)
    }
}

impl Baud {
    /// Parses a decimal baud rate.
    pub fn from_str(text: &str) -> (r: Result<Baud, Error>)
        ensures
            r == spec_baud_from_str(text@),
    {
        match parse_number(text, u32::MAX as usize) {
            Ok(v) => Ok(Baud(v as u32)),
            Err(_) => Err(Error::InvalidNumber),
        }
    }

    /// Takes a baud rate from a signed integer field.
    pub fn from_i64(value: i64) -> (r: Result<Baud, Error>)
        ensures
            0 <= value <= u32::MAX ==> r == Ok::<Baud, Error>(Baud(value as u32)),
            !(0 <= value <= u32::MAX) ==> r == Err::<Baud, Error>(Error::InvalidNumber),
    {
        if 0 <= value && value <= u32::MAX as i64 {
            Ok(Baud(value as u32))
        } else {
            Err(Error::InvalidNumber)
        }
    }
}

/// A frequency in hertz, as parsed from a magnitude-with-unit literal.
#[derive(Clone, Copy, Debug, PartialEq, Eq, Structural)]
pub struct Hertz(pub usize);

/// The length of the maximal decimal-digit prefix of a sequence.
pub open spec fn spec_digit_prefix_len(s: Seq<char>) -> int
    decreases s.len(),
{
    if s.len() == 0 || !spec_is_digit(s[0]) {
        0
    } else {
        1 + spec_digit_prefix_len(s.skip(1))
    }
}

proof fn lemma_digit_prefix_len_is(s: Seq<char>, i: int)
    requires
        0 <= i <= s.len(),
        forall|j: int| 0 <= j < i ==> spec_is_digit(#[trigger] s[j]),
        i < s.len() ==> !spec_is_digit(s[i]),
    ensures
        spec_digit_prefix_len(s) == i,
    decreases s.len(),
{
    if s.len() == 0 {
    } else if i == 0 {
    } else {
        lemma_digit_prefix_len_is(s.skip(1), i - 1);
    }
}

/// The multiplier a frequency-unit suffix stands for, matched
/// case-insensitively; `None` for an unrecognized unit.
pub open spec fn spec_hz_factor(unit: Seq<char>) -> Option<int> {
    if spec_lower(unit) == "hz"@ {
        Some(1int)
    } else if spec_lower(unit) == "khz"@ {
        Some(1000int)
    } else if spec_lower(unit) == "mhz"@ {
        Some(1000000int)
    } else if spec_lower(unit) == "ghz"@ {
        Some(1000000000int)
    } else {
        None
    }
}

/// The frequency a literal such as `36mhz` denotes: a decimal magnitude
/// followed by a unit suffix. An unrecognized suffix is `UnknownUnit`; a
/// missing magnitude, or one whose scaled value does not fit the machine,
/// is `InvalidNumber`.
pub open spec fn spec_hertz_from_str(s: Seq<char>) -> Result<Hertz, Error> {
    let ld = spec_digit_prefix_len(s);
    let amount = s.take(ld);
    let unit = s.skip(ld);
    match spec_hz_factor(unit) {
        Option::None => Err(Error::UnknownUnit),
        Option::Some(factor) => if !spec_all_digits(amount) {
            Err(Error::InvalidNumber)
        } else if spec_digits_val(amount) * factor > usize::MAX {
            Err(Error::InvalidNumber)
        } else {
            Ok(Hertz((spec_digits_val(amount) * factor) as usize))
        },
    }
}

/// Scales a parsed magnitude by a unit factor, rejecting text that is not a
/// number and values that do not fit the machine.
fn scale_amount(amount: &str, factor: usize) -> (r: Result<Hertz, Error>)
    requires
        1 <= factor,
    ensures
        !spec_all_digits(amount@) ==> r == Err::<Hertz, Error>(Error::InvalidNumber),
        spec_all_digits(amount@) && spec_digits_val(amount@) * factor > usize::MAX ==> r == Err::<
            Hertz,
            Error,
        >(Error::InvalidNumber),
        spec_all_digits(amount@) && spec_digits_val(amount@) * factor <= usize::MAX ==> r == Ok::<
            Hertz,
            Error,
        >(Hertz((spec_digits_val(amount@) * factor) as usize)),
{
    let bound = usize::MAX / factor;
    proof {
        vstd::arithmetic::div_mod::lemma_fundamental_div_mod(usize::MAX as int, factor as int);
        vstd::arithmetic::div_mod::lemma_mod_bound(usize::MAX as int, factor as int);
    }
    let ghost m: int = usize::MAX as int % factor as int;
    match parse_number(amount, bound) {
        Ok(v) => {
            proof {
                assert(v * factor <= usize::MAX) by (nonlinear_arith)
                    requires
                        0 <= v <= bound,
                        usize::MAX as int == factor as int * bound as int + m,
                        0 <= m,
                {
                }
            }
            Ok(Hertz(v * factor))
        },
        Err(NumError::NotANumber) => Err(Error::InvalidNumber),
        Err(NumError::TooLarge) => {
            proof {
                let val = spec_digits_val(amount@);
                assert(val * factor > usize::MAX) by (nonlinear_arith)
                    requires
                        val > bound,
                        usize::MAX as int == factor as int * bound as int + m,
                        m < factor,
                {
                }
            }
            Err(Error::InvalidNumber)
        },
    }
}

impl Hertz {
    /// Parses a frequency literal such as `36mhz` or `10khz` (unit in any
    /// case) into hertz.
    pub fn from_str(text: &str) -> (r: Result<Hertz, Error>)
        ensures
            r == spec_hertz_from_str(text@),
    {
        proof {
            reveal_strlit("hz");
            reveal_strlit("khz");
            reveal_strlit("mhz");
            reveal_strlit("ghz");
            assert(spec_lower("hz"@) =~= "hz"@);
            assert(spec_lower("khz"@) =~= "khz"@);
            assert(spec_lower("mhz"@) =~= "mhz"@);
            assert(spec_lower("ghz"@) =~= "ghz"@);
        }
        let n = text.unicode_len();
        let mut ld: usize = 0;
        loop
            invariant
                n == text@.len(),
                0 <= ld <= n,
                forall|j: int| 0 <= j < ld ==> spec_is_digit(#[trigger] text@[j]),
            ensures
                n == text@.len(),
                0 <= ld <= n,
                forall|j: int| 0 <= j < ld ==> spec_is_digit(#[trigger] text@[j]),
                ld < n ==> !spec_is_digit(text@[ld as int]),
            decreases n - ld,
        {
            if ld == n {
                break;
            }
            let u = text.get_char(ld) as u32;
            if u < 48 || u > 57 {
                break;
            }
            ld = ld + 1;
        }
        proof {
            lemma_digit_prefix_len_is(text@, ld as int);
        }
        let amount = text.substring_char(0, ld);
        let unit = text.substring_char(ld, n);
        proof {
            assert(amount@ =~= text@.take(ld as int));
            assert(unit@ =~= text@.skip(ld as int));
        }
        let factor: usize = if eq_ignore_case(unit, "hz") {
            1
        } else if eq_ignore_case(unit, "khz") {
            1000
        } else if eq_ignore_case(unit, "mhz") {
            1000000
        } else if eq_ignore_case(unit, "ghz") {
            1000000000
        } else {
            return Err(Error::UnknownUnit);
        };
        scale_amount(amount, factor)
    }
}

/// The closed set of device families a configuration can name.
#[derive(Clone, Copy, Debug, PartialEq, Eq, Structural)]
pub enum DeviceKind {
    Dummy,
    Stm32f1xx,
}

/// The device family a name refers to; names are matched case-insensitively
/// and accept the common board aliases.
pub open spec fn spec_device_kind_from_str(s: Seq<char>) -> Result<DeviceKind, Error> {
    if spec_lower(s) == "dummy"@ {
        Ok(DeviceKind::Dummy)
    } else if spec_lower(s) == "stm32f1xx"@ || spec_lower(s) == "stm32f1"@ || spec_lower(s)
        == "bluepill"@ || spec_lower(s) == "blue_pill"@ {
        Ok(DeviceKind::Stm32f1xx)
    } else {
        Err(Error::UnknownDeviceKind)
    }
}

impl DeviceKind {
    /// Resolves a device-family name such as `stm32f1xx` or `BluePill`.
    pub fn from_str(name: &str) -> (r: Result<DeviceKind, Error>)
        ensures
            r == spec_device_kind_from_str(name@),
    {
        proof {
            reveal_strlit("dummy");
            reveal_strlit("stm32f1xx");
            reveal_strlit("stm32f1");
            reveal_strlit("bluepill");
            reveal_strlit("blue_pill");
            assert(spec_lower("dummy"@) =~= "dummy"@);
            assert(spec_lower("stm32f1xx"@) =~= "stm32f1xx"@);
            assert(spec_lower("stm32f1"@) =~= "stm32f1"@);
            assert(spec_lower("bluepill"@) =~= "bluepill"@);
            assert(spec_lower("blue_pill"@) =~= "blue_pill"@);
        }
        if eq_ignore_case(name, "dummy") {
            Ok(DeviceKind::Dummy)
        } else if eq_ignore_case(name, "stm32f1xx") || eq_ignore_case(name, "stm32f1")
            || eq_ignore_case(name, "bluepill") || eq_ignore_case(name, "blue_pill") {
            Ok(DeviceKind::Stm32f1xx)
        } else {
            Err(Error::UnknownDeviceKind)
        }
    }
}

} // verus!
