//! Small verified text helpers shared by the parsers: ASCII lower-casing,
//! case-insensitive comparison, and decimal-number parsing.

use vstd::prelude::*;

verus! {

/// Lower-cases one ASCII letter; every other character is unchanged.
pub open spec fn spec_lower_char(c: char) -> char {
    if 'A' <= c && c <= 'Z' {
        ((c as u32) + 32) as char
    } else {
        c
    }
}

/// Lower-cases the ASCII letters of a character sequence.
pub open spec fn spec_lower(s: Seq<char>) -> Seq<char> {
    s.map_values(|c: char| spec_lower_char(c))
}

/// Lower-cases one character.
pub fn lower_char(c: char) -> (r: char)
    ensures
        r == spec_lower_char(c),
{
    let u = c as u32;
    if 65 <= u && u <= 90 {
        ((u + 32) as u8) as char
    } else {
        c
    }
}

/// Compares two strings for equality up to ASCII case.
pub fn eq_ignore_case(a: &str, b: &str) -> (r: bool)
    ensures
        r == (spec_lower(a@) == spec_lower(b@)),
{
    let n = a.unicode_len();
    if n != b.unicode_len() {
        proof {
            assert(spec_lower(a@).len() != spec_lower(b@).len());
        }
        return false;
    }
    for i in 0..n
        invariant
            n == a@.len(),
            n == b@.len(),
            forall|j: int| 0 <= j < i ==> spec_lower_char(a@[j]) == spec_lower_char(b@[j]),
    {
        let ca = lower_char(a.get_char(i));
        let cb = lower_char(b.get_char(i));
        if ca != cb {
            proof {
                assert(spec_lower(a@)[i as int] != spec_lower(b@)[i as int]);
            }
            return false;
        }
    }
    proof {
        assert(spec_lower(a@) =~= spec_lower(b@));
    }
    true
}

/// The view of an optional string field.
pub open spec fn spec_opt_str(o: Option<&str>) -> Option<Seq<char>> {
    match o {
        Option::Some(s) => Option::Some(s@),
        Option::None => Option::None,
    }
}

/// Whether a character is a decimal digit.
pub open spec fn spec_is_digit(c: char) -> bool {
    '0' <= c && c <= '9'
}

/// Whether a sequence is non-empty and consists of decimal digits only.
pub open spec fn spec_all_digits(s: Seq<char>) -> bool {
    s.len() > 0 && forall|i: int| 0 <= i < s.len() ==> spec_is_digit(#[trigger] s[i])
}

/// The value of a sequence of decimal digits.
pub open spec fn spec_digits_val(s: Seq<char>) -> int
    decreases s.len(),
{
    if s.len() == 0 {
        0
    } else {
        spec_digits_val(s.drop_last()) * 10 + (s.last() as int - 48)
    }
}

/// A digit sequence has a non-negative value.
proof fn lemma_digits_val_nonneg(s: Seq<char>)
    requires
        forall|i: int| 0 <= i < s.len() ==> spec_is_digit(#[trigger] s[i]),
    ensures
        spec_digits_val(s) >= 0,
    decreases s.len(),
{
    if s.len() > 0 {
        lemma_digits_val_nonneg(s.drop_last());
    }
}

/// Reading more digits can only increase the value.
proof fn lemma_digits_val_prefix(s: Seq<char>, i: int)
    requires
        forall|j: int| 0 <= j < s.len() ==> spec_is_digit(#[trigger] s[j]),
        0 <= i <= s.len(),
    ensures
        spec_digits_val(s.take(i)) <= spec_digits_val(s),
    decreases s.len() - i,
{
    if i == s.len() {
        assert(s.take(i) =~= s);
    } else {
        lemma_digits_val_prefix(s, i + 1);
        let t = s.take(i + 1);
        assert(t.drop_last() =~= s.take(i));
        lemma_digits_val_nonneg(s.take(i));
        assert(spec_digits_val(s.take(i)) <= spec_digits_val(t));
    }
}

/// Why a string did not parse as a bounded decimal number.
#[derive(Clone, Copy, Debug, PartialEq, Eq, Structural)]
pub enum NumError {
    /// Empty, or some character is not a decimal digit.
    NotANumber,
    /// A well-formed number whose value exceeds the given bound.
    TooLarge,
}

/// Parses a whole string as a decimal number of at most `limit`.
pub fn parse_number(s: &str, limit: usize) -> (r: Result<usize, NumError>)
    ensures
        r == Ok::<usize, NumError>(spec_digits_val(s@) as usize) <==> spec_all_digits(s@)
            && spec_digits_val(s@) <= limit,
        r == Err::<usize, NumError>(NumError::NotANumber) <==> !spec_all_digits(s@),
        r == Err::<usize, NumError>(NumError::TooLarge) <==> spec_all_digits(s@)
            && spec_digits_val(s@) > limit,
        spec_all_digits(s@) ==> spec_digits_val(s@) >= 0,
{
    proof {
        if spec_all_digits(s@) {
            lemma_digits_val_nonneg(s@);
        }
    }
    let n = s.unicode_len();
    if n == 0 {
        return Err(NumError::NotANumber);
    }
    for i in 0..n
        invariant
            n == s@.len(),
            forall|j: int| 0 <= j < i ==> spec_is_digit(#[trigger] s@[j]),
    {
        let u = s.get_char(i) as u32;
        if u < 48 || u > 57 {
            return Err(NumError::NotANumber);
        }
    }
    let mut acc: usize = 0;
    for i in 0..n
        invariant
            n == s@.len(),
            spec_all_digits(s@),
            acc == spec_digits_val(s@.take(i as int)),
            acc <= limit,
    {
        let d = (s.get_char(i) as u32 - 48) as usize;
        proof {
            assert(s@.take(i + 1).drop_last() =~= s@.take(i as int));
            assert(spec_digits_val(s@.take(i + 1)) == acc * 10 + d);
        }
        if acc > limit / 10 {
            proof {
                lemma_digits_val_prefix(s@, i + 1);
                assert(acc * 10 >= (limit / 10 + 1) * 10);
            }
            return Err(NumError::TooLarge);
        }
        let shifted = acc * 10;
        if d > limit - shifted {
            proof {
                lemma_digits_val_prefix(s@, i + 1);
            }
            return Err(NumError::TooLarge);
        }
        acc = shifted + d;
    }
    proof {
        assert(s@.take(n as int) =~= s@);
    }
    Ok(acc)
}

} // verus!
