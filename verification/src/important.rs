//! Recognition and stripping of the `!important` marker at the end of a
//! declaration's value.
//!
//! A conforming declaration parser stores `important == true` exactly when
//! the value was terminated by `!` followed by the `important` keyword
//! (compared case-insensitively), with whitespace allowed around both, and
//! strips that trailing marker before storage. `strip_bang_important` is
//! that step, verified against the specification below.

use vstd::prelude::*;
use vstd::string::StrSliceExecFns;

use crate::ast::ComponentValue;
use crate::whitespace::is_ws;

verus! {

/// `s` without its trailing whitespace tokens.
pub open spec fn trim_ws_end(s: Seq<ComponentValue>) -> Seq<ComponentValue>
    decreases s.len(),
{
    if s.len() > 0 && is_ws(s.last()) {
        trim_ws_end(s.drop_last())
    } else {
        s
    }
}

/// The characters of the keyword `important`, compared ASCII
/// case-insensitively.
pub open spec fn is_important_keyword(s: Seq<char>) -> bool {
    &&& s.len() == 9
    &&& (s[0] == 'i' || s[0] == 'I')
    &&& (s[1] == 'm' || s[1] == 'M')
    &&& (s[2] == 'p' || s[2] == 'P')
    &&& (s[3] == 'o' || s[3] == 'O')
    &&& (s[4] == 'r' || s[4] == 'R')
    &&& (s[5] == 't' || s[5] == 'T')
    &&& (s[6] == 'a' || s[6] == 'A')
    &&& (s[7] == 'n' || s[7] == 'N')
    &&& (s[8] == 't' || s[8] == 'T')
}

/// An identifier token spelling the `important` keyword.
pub open spec fn is_important_ident(c: ComponentValue) -> bool {
    match c {
        ComponentValue::Ident(x) => is_important_keyword(x@),
        _ => false,
    }
}

/// The `!` delimiter token.
pub open spec fn is_bang(c: ComponentValue) -> bool {
    c == ComponentValue::Delim('!')
}

/// What precedes the final keyword: the value without trailing
/// whitespace, the last token, and whitespace before that.
pub open spec fn before_keyword(s: Seq<ComponentValue>) -> Seq<ComponentValue> {
    trim_ws_end(trim_ws_end(s).drop_last())
}

/// Whether `s` ends, ignoring whitespace, with `!` and then the
/// `important` keyword.
pub open spec fn ends_with_bang_important(s: Seq<ComponentValue>) -> bool {
    &&& trim_ws_end(s).len() > 0
    &&& is_important_ident(trim_ws_end(s).last())
    &&& before_keyword(s).len() > 0
    &&& is_bang(before_keyword(s).last())
}

/// `s` with the trailing `!important` marker removed, whitespace around
/// and before the marker included.
pub open spec fn stripped_value(s: Seq<ComponentValue>) -> Seq<ComponentValue> {
    trim_ws_end(before_keyword(s).drop_last())
}

/// Whether `x` spells the keyword `important`, ASCII case-insensitively.
fn ident_is_important(x: &str) -> (r: bool)
    ensures
        r == is_important_keyword(x@),
{
    let n = x.unicode_len();
    if n != 9 {
        return false;
    }
    let c0 = x.get_char(0);
    let c1 = x.get_char(1);
    let c2 = x.get_char(2);
    let c3 = x.get_char(3);
    let c4 = x.get_char(4);
    let c5 = x.get_char(5);
    let c6 = x.get_char(6);
    let c7 = x.get_char(7);
    let c8 = x.get_char(8);
    (c0 == 'i' || c0 == 'I') && (c1 == 'm' || c1 == 'M') && (c2 == 'p' || c2 == 'P') && (c3 == 'o'
        || c3 == 'O') && (c4 == 'r' || c4 == 'R') && (c5 == 't' || c5 == 'T') && (c6 == 'a' || c6
        == 'A') && (c7 == 'n' || c7 == 'N') && (c8 == 't' || c8 == 'T')
}

/// If `value` ends, ignoring whitespace, with `!` followed by the
/// `important` keyword, strips that trailing marker (and the whitespace
/// around and before it) and reports `true`; otherwise hands the value
/// back unchanged with `false`.
pub fn strip_bang_important(value: Vec<ComponentValue>) -> (r: (Vec<ComponentValue>, bool))
    ensures
        r.1 == ends_with_bang_important(value@),
        r.1 ==> r.0@ == stripped_value(value@),
        !r.1 ==> r.0@ == value@,
{
    let mut value = value;
    let ghost s = value@;
    let n = value.len();
    proof {
        assert(s.take(n as int) =~= s);
    }
    let mut i: usize = n;
    while i > 0 && value[i - 1].is_whitespace()
        invariant
            value@ == s,
            n == s.len(),
            i <= n,
            trim_ws_end(s) == trim_ws_end(s.take(i as int)),
        decreases i,
    {
        proof {
            assert(s.take(i as int).last() == s[i - 1]);
            assert(s.take(i as int).drop_last() =~= s.take(i - 1));
        }
        i = i - 1;
    }
    proof {
        if i > 0 {
            assert(s.take(i as int).last() == s[i - 1]);
        }
        assert(trim_ws_end(s) == s.take(i as int));
    }
    if i == 0 {
        return (value, false);
    }
    let is_imp = match &value[i - 1] {
        ComponentValue::Ident(x) => ident_is_important(x.as_str()),
        _ => false,
    };
    if !is_imp {
        return (value, false);
    }
    proof {
        assert(trim_ws_end(s).drop_last() =~= s.take(i - 1));
    }
    let mut j: usize = i - 1;
    while j > 0 && value[j - 1].is_whitespace()
        invariant
            value@ == s,
            n == s.len(),
            j <= n,
            before_keyword(s) == trim_ws_end(s.take(j as int)),
        decreases j,
    {
        proof {
            assert(s.take(j as int).last() == s[j - 1]);
            assert(s.take(j as int).drop_last() =~= s.take(j - 1));
        }
        j = j - 1;
    }
    proof {
        if j > 0 {
            assert(s.take(j as int).last() == s[j - 1]);
        }
        assert(before_keyword(s) == s.take(j as int));
    }
    if j == 0 {
        return (value, false);
    }
    let is_excl = match &value[j - 1] {
        ComponentValue::Delim(ch) => *ch == '!',
        _ => false,
    };
    if !is_excl {
        return (value, false);
    }
    proof {
        assert(before_keyword(s).drop_last() =~= s.take(j - 1));
    }
    let mut k: usize = j - 1;
    while k > 0 && value[k - 1].is_whitespace()
        invariant
            value@ == s,
            n == s.len(),
            k <= n,
            stripped_value(s) == trim_ws_end(s.take(k as int)),
        decreases k,
    {
        proof {
            assert(s.take(k as int).last() == s[k - 1]);
            assert(s.take(k as int).drop_last() =~= s.take(k - 1));
        }
        k = k - 1;
    }
    proof {
        if k > 0 {
            assert(s.take(k as int).last() == s[k - 1]);
        }
        assert(stripped_value(s) == s.take(k as int));
    }
    value.truncate(k);
    (value, true)
}

} // verus!
