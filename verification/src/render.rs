//! Rendering of syntax errors as `"{line}:{column} {reason}"`, built on a
//! verified decimal spelling of unsigned numbers.

use vstd::prelude::*;
use vstd::string::StringExecFns;

use crate::ast::ErrorReason;
use crate::ast::SyntaxError;

verus! {

/// The decimal digit character for `d` (0 through 9).
pub open spec fn digit_char(d: nat) -> char {
    if d == 0 {
        '0'
    } else if d == 1 {
        '1'
    } else if d == 2 {
        '2'
    } else if d == 3 {
        '3'
    } else if d == 4 {
        '4'
    } else if d == 5 {
        '5'
    } else if d == 6 {
        '6'
    } else if d == 7 {
        '7'
    } else if d == 8 {
        '8'
    } else {
        '9'
    }
}

/// The decimal spelling of `n`, most significant digit first, with no
/// leading zero (zero itself is spelled `"0"`).
pub open spec fn decimal_digits(n: nat) -> Seq<char>
    decreases n,
{
    if n < 10 {
        seq![digit_char(n)]
    } else {
        decimal_digits(n / 10) + seq![digit_char(n % 10)]
    }
}

/// Appends the single decimal digit `d`.
fn append_digit(d: usize, out: &mut String)
    requires
        d < 10,
    ensures
        final(out)@ == old(out)@ + seq![digit_char(d as nat)],
{
    match d {
        0 => {
            out.append("0");
            proof {
                reveal_strlit("0");
                assert(("0")@ =~= seq![digit_char(d as nat)]);
            }
        },
        1 => {
            out.append("1");
            proof {
                reveal_strlit("1");
                assert(("1")@ =~= seq![digit_char(d as nat)]);
            }
        },
        2 => {
            out.append("2");
            proof {
                reveal_strlit("2");
                assert(("2")@ =~= seq![digit_char(d as nat)]);
            }
        },
        3 => {
            out.append("3");
            proof {
                reveal_strlit("3");
                assert(("3")@ =~= seq![digit_char(d as nat)]);
            }
        },
        4 => {
            out.append("4");
            proof {
                reveal_strlit("4");
                assert(("4")@ =~= seq![digit_char(d as nat)]);
            }
        },
        5 => {
            out.append("5");
            proof {
                reveal_strlit("5");
                assert(("5")@ =~= seq![digit_char(d as nat)]);
            }
        },
        6 => {
            out.append("6");
            proof {
                reveal_strlit("6");
                assert(("6")@ =~= seq![digit_char(d as nat)]);
            }
        },
        7 => {
            out.append("7");
            proof {
                reveal_strlit("7");
                assert(("7")@ =~= seq![digit_char(d as nat)]);
            }
        },
        8 => {
            out.append("8");
            proof {
                reveal_strlit("8");
                assert(("8")@ =~= seq![digit_char(d as nat)]);
            }
        },
        _ => {
            out.append("9");
            proof {
                reveal_strlit("9");
                assert(("9")@ =~= seq![digit_char(d as nat)]);
            }
        },
    }
}

/// Appends the decimal spelling of `n`.
fn push_decimal(n: usize, out: &mut String)
    ensures
        final(out)@ == old(out)@ + decimal_digits(n as nat),
    decreases n,
{
    let ghost start = out@;
    if n >= 10 {
        push_decimal(n / 10, out);
    }
    let ghost mid = out@;
    let d = n % 10;
    append_digit(d, out);
    proof {
        if n >= 10 {
            assert(out@ =~= start + decimal_digits(n as nat));
        } else {
            assert(out@ =~= start + decimal_digits(n as nat));
        }
    }
}

impl ErrorReason {
    /// The canonical name of this reason tag, as rendered in messages.
    pub open spec fn spec_name(self) -> Seq<char> {
        match self {
            ErrorReason::EmptyInput => "EmptyInput"@,
            ErrorReason::ExtraInput => "ExtraInput"@,
            ErrorReason::MissingQualifiedRuleBlock => "MissingQualifiedRuleBlock"@,
            ErrorReason::InvalidDeclarationSyntax => "InvalidDeclarationSyntax"@,
            ErrorReason::InvalidBangImportantSyntax => "InvalidBangImportantSyntax"@,
        }
    }

    /// The canonical name of this reason tag.
    pub fn name(&self) -> (r: &'static str)
        ensures
            r@ == self.spec_name(),
    {
        match self {
            ErrorReason::EmptyInput => "EmptyInput",
            ErrorReason::ExtraInput => "ExtraInput",
            ErrorReason::MissingQualifiedRuleBlock => "MissingQualifiedRuleBlock",
            ErrorReason::InvalidDeclarationSyntax => "InvalidDeclarationSyntax",
            ErrorReason::InvalidBangImportantSyntax => "InvalidBangImportantSyntax",
        }
    }
}

impl SyntaxError {
    /// The rendering of this error: line, `:`, column, a space, and the
    /// reason's canonical name.
    pub open spec fn spec_message(self) -> Seq<char> {
        decimal_digits(self.location.line as nat) + ":"@ + decimal_digits(
            self.location.column as nat,
        ) + " "@ + self.reason.spec_name()
    }

    /// Renders this error as `"{line}:{column} {reason}"`.
    pub fn message(&self) -> (r: String)
        ensures
            r@ == self.spec_message(),
    {
        let mut out = String::new();
        push_decimal(self.location.line, &mut out);
        out.append(":");
        push_decimal(self.location.column, &mut out);
        out.append(" ");
        out.append(self.reason.name());
        proof {
            assert(out@ =~= self.spec_message());
        }
        out
    }
}

} // verus!
