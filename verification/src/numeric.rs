//! The invariant of numeric values as a conforming tokenizer constructs
//! them: the optional integer value is present exactly when the source
//! spelling matched the integer production (no decimal point, no exponent
//! marker), and then equals the integer reading of that spelling.

use vstd::prelude::*;
use vstd::string::StrSliceExecFns;

use crate::ast::NumericValue;

verus! {

/// True when `s` spells an integer token: no decimal point and no
/// exponent marker.
pub open spec fn is_integer_representation(s: Seq<char>) -> bool {
    forall|i: int| 0 <= i < s.len() ==> #[trigger] s[i] != '.' && s[i] != 'e' && s[i] != 'E'
}

/// True of a decimal digit character.
pub open spec fn is_digit(c: char) -> bool {
    '0' <= c && c <= '9'
}

/// The numeric value of a decimal digit character.
pub open spec fn digit_value(c: char) -> int {
    c as int - '0' as int
}

/// The value of a digit string, most significant digit first.
pub open spec fn digits_value(s: Seq<char>) -> int
    decreases s.len(),
{
    if s.len() == 0 {
        0
    } else {
        digits_value(s.drop_last()) * 10 + digit_value(s.last())
    }
}

/// The number of leading sign characters of `s`: one or zero.
pub open spec fn sign_len(s: Seq<char>) -> int {
    if s.len() > 0 && (s[0] == '+' || s[0] == '-') {
        1
    } else {
        0
    }
}

/// `s` without its optional leading sign.
pub open spec fn magnitude(s: Seq<char>) -> Seq<char> {
    s.skip(sign_len(s))
}

/// True when `s` is an optional sign followed by at least one decimal
/// digit and nothing else.
pub open spec fn is_signed_digits(s: Seq<char>) -> bool {
    &&& magnitude(s).len() > 0
    &&& forall|i: int| 0 <= i < magnitude(s).len() ==> is_digit(#[trigger] magnitude(s)[i])
}

/// The integer reading of an optional sign followed by digits.
pub open spec fn signed_digits_value(s: Seq<char>) -> int {
    if s.len() > 0 && s[0] == '-' {
        -digits_value(magnitude(s))
    } else {
        digits_value(magnitude(s))
    }
}

/// A digit string has a non-negative value.
proof fn lemma_digits_value_nonneg(s: Seq<char>)
    requires
        forall|i: int| 0 <= i < s.len() ==> is_digit(#[trigger] s[i]),
    ensures
        digits_value(s) >= 0,
    decreases s.len(),
{
    if s.len() > 0 {
        let s0 = s.drop_last();
        assert forall|i: int| 0 <= i < s0.len() implies is_digit(#[trigger] s0[i]) by {
            assert(s0[i] == s[i]);
        }
        lemma_digits_value_nonneg(s0);
    }
}

/// Extending a digit string never decreases its value.
proof fn lemma_digits_value_prefix_le(s: Seq<char>, i: int)
    requires
        0 <= i <= s.len(),
        forall|j: int| 0 <= j < s.len() ==> is_digit(#[trigger] s[j]),
    ensures
        digits_value(s.take(i)) <= digits_value(s),
    decreases s.len(),
{
    if i == s.len() {
        assert(s.take(i) =~= s);
    } else {
        let s0 = s.drop_last();
        assert forall|j: int| 0 <= j < s0.len() implies is_digit(#[trigger] s0[j]) by {
            assert(s0[j] == s[j]);
        }
        lemma_digits_value_prefix_le(s0, i);
        assert(s0.take(i) =~= s.take(i));
        lemma_digits_value_nonneg(s0);
    }
}

/// Whether `rep` is an optional sign followed by digits whose integer
/// reading equals `v`.
fn signed_digits_match(rep: &str, v: i64) -> (r: bool)
    ensures
        r == (is_signed_digits(rep@) && v as int == signed_digits_value(rep@)),
{
    let n = rep.unicode_len();
    if n == 0 {
        return false;
    }
    let c0 = rep.get_char(0);
    let neg = c0 == '-';
    let signed = c0 == '-' || c0 == '+';
    let start: usize = if signed {
        1
    } else {
        0
    };
    let ghost mag = magnitude(rep@);
    proof {
        assert(sign_len(rep@) == start);
        if !signed {
            assert(mag =~= rep@);
        }
    }
    if start >= n {
        // a bare sign has no digits
        return false;
    }
    let mut acc: i64 = 0;
    let mut i: usize = start;
    while i < n
        invariant
            n == rep@.len(),
            start <= i <= n,
            start == if signed {
                1int
            } else {
                0int
            },
            start < n,
            signed == (rep@[0] == '-' || rep@[0] == '+'),
            neg == (rep@[0] == '-'),
            mag == magnitude(rep@),
            sign_len(rep@) == start,
            mag.len() == n - start,
            forall|j: int| 0 <= j < i - start ==> is_digit(#[trigger] mag[j]),
            neg ==> acc == -digits_value(mag.take(i - start)),
            !neg ==> acc == digits_value(mag.take(i - start)),
        decreases n - i,
    {
        let ghost k = i - start;
        let c = rep.get_char(i);
        proof {
            assert(mag[k] == c);
        }
        let u = c as u32;
        if u < 48 || u > 57 {
            // not a digit: the spelling is not sign-plus-digits
            proof {
                assert(!is_digit(mag[k]));
                assert(!is_signed_digits(rep@));
            }
            return false;
        }
        let d = (u - 48) as i64;
        proof {
            assert(mag.take(k + 1).drop_last() =~= mag.take(k));
            assert(mag.take(k + 1).last() == mag[k]);
            assert(digits_value(mag.take(k + 1)) == digits_value(mag.take(k)) * 10 + digit_value(
                mag[k],
            ));
            assert(digit_value(mag[k]) == d);
        }
        let next = if neg {
            match acc.checked_mul(10) {
                Some(t) => t.checked_sub(d),
                None => None,
            }
        } else {
            match acc.checked_mul(10) {
                Some(t) => t.checked_add(d),
                None => None,
            }
        };
        match next {
            Some(a) => {
                acc = a;
            },
            None => {
                // the digits read so far already overflow every i64, and
                // further digits can only grow the magnitude
                proof {
                    assert forall|j: int| 0 <= j < mag.take(k).len() implies is_digit(
                        #[trigger] mag.take(k)[j],
                    ) by {
                        assert(mag.take(k)[j] == mag[j]);
                    }
                    lemma_digits_value_nonneg(mag.take(k));
                    if is_signed_digits(rep@) && v as int == signed_digits_value(rep@) {
                        lemma_digits_value_prefix_le(mag, k + 1);
                        if neg {
                            assert(signed_digits_value(rep@) == -digits_value(mag));
                            assert(digits_value(mag.take(k + 1)) > i64::MAX + 1);
                        } else {
                            assert(signed_digits_value(rep@) == digits_value(mag));
                            assert(digits_value(mag.take(k + 1)) > i64::MAX);
                        }
                        assert(false);
                    }
                }
                return false;
            },
        }
        i += 1;
    }
    proof {
        assert(mag.take(n - start) =~= mag);
        assert(is_signed_digits(rep@));
        if neg {
            assert(signed_digits_value(rep@) == -digits_value(mag));
        } else {
            assert(signed_digits_value(rep@) == digits_value(mag));
        }
    }
    acc == v
}

impl NumericValue {
    /// The invariant a conforming tokenizer establishes: `int_value` is
    /// present exactly when `representation` has no decimal point and no
    /// exponent marker, and then `representation` is an optionally signed
    /// digit string whose integer reading is `int_value`.
    pub open spec fn well_formed(self) -> bool {
        &&& (self.int_value is Some <==> is_integer_representation(self.representation@))
        &&& match self.int_value {
            Some(v) => is_signed_digits(self.representation@) && v as int == signed_digits_value(
                self.representation@,
            ),
            None => true,
        }
    }

    /// Decides the invariant above for this value.
    pub fn check_well_formed(&self) -> (r: bool)
        ensures
            r == self.well_formed(),
    {
        let rep: &str = self.representation.as_str();
        let n = rep.unicode_len();
        let mut int_repr = true;
        let mut i: usize = 0;
        while i < n
            invariant
                n == rep@.len(),
                i <= n,
                int_repr == (forall|j: int|
                    0 <= j < i ==> #[trigger] rep@[j] != '.' && rep@[j] != 'e' && rep@[j] != 'E'),
            decreases n - i,
        {
            let c = rep.get_char(i);
            if c == '.' || c == 'e' || c == 'E' {
                int_repr = false;
            }
            i += 1;
        }
        match self.int_value {
            None => !int_repr,
            Some(v) => int_repr && signed_digits_match(rep, v),
        }
    }
}

} // verus!
