//! The data model: component values, located nodes, declarations, rules,
//! at-rules, and the syntax-error taxonomy.

use vstd::prelude::*;

verus! {

/// A CSS number token. `representation` is the exact source spelling that
/// produced the value; `value_bits` holds the IEEE-754 bit pattern of the
/// parsed 64-bit floating value (kept opaque here: this layer never computes
/// with it); `int_value` is present exactly when the token matched the
/// integer production (no decimal point, no exponent), and then equals the
/// integer reading of `representation`.
#[derive(Debug)]
pub struct NumericValue {
    pub representation: String,
    pub value_bits: u64,
    pub int_value: Option<i64>,
}

/// 1-based position of a token's first character in the source text.
#[derive(Clone, Copy, PartialEq, Eq, Structural, Debug)]
pub struct SourceLocation {
    /// First line is 1.
    pub line: usize,
    /// First character of a line is at column 1.
    pub column: usize,
}

impl SourceLocation {
    /// Lines and columns are 1-based: a location a tokenizer produced
    /// never has a zero component.
    pub open spec fn well_formed(self) -> bool {
        self.line >= 1 && self.column >= 1
    }
}

/// A component value together with the source position where it begins;
/// the unit stored inside curly-bracket blocks and rule lists.
pub type Node = (ComponentValue, SourceLocation);

/// One CSS token or nested structure as produced by tokenization.
#[derive(Debug)]
pub enum ComponentValue {
    // Preserved tokens.
    Ident(String),
    AtKeyword(String),
    Hash(String),
    /// Hash that is a valid ID selector.
    IDHash(String),
    QuotedString(String),
    URL(String),
    Delim(char),
    Number(NumericValue),
    Percentage(NumericValue),
    Dimension(NumericValue, String),
    /// Inclusive (start, end) range of code points.
    UnicodeRange(u32, u32),
    WhiteSpace,
    Colon,  // :
    Semicolon,  // ;
    Comma,  // ,
    IncludeMatch,  // ~=
    DashMatch,  // |=
    PrefixMatch,  // ^=
    SuffixMatch,  // $=
    SubstringMatch,  // *=
    Column,  // ||
    CDO,  // <!--
    CDC,  // -->

    /// A function: name and arguments, `name(...)`.
    Function(String, Vec<ComponentValue>),

    // Simple blocks.
    ParenthesisBlock(Vec<ComponentValue>),  // (...)
    SquareBracketBlock(Vec<ComponentValue>),  // [...]
    CurlyBracketBlock(Vec<Node>),  // {...}

    // Lexically recognized but always grammatically invalid; preserved so
    // that error recovery and diagnostics have something to point at.
    BadURL,
    BadString,
    CloseParenthesis,  // )
    CloseSquareBracket,  // ]
    CloseCurlyBracket,  // }
}

/// A `name: value` declaration, with `important` true exactly when the
/// value was terminated by `!important` (that marker is stripped from
/// `value` before storage).
pub struct Declaration {
    pub location: SourceLocation,
    pub name: String,
    pub value: Vec<ComponentValue>,
    pub important: bool,
}

/// A rule with a prelude (for instance a selector) and a mandatory
/// curly-bracket block.
pub struct QualifiedRule {
    pub location: SourceLocation,
    pub prelude: Vec<ComponentValue>,
    pub block: Vec<Node>,
}

/// An `@name` rule: prelude followed by either a block or a terminating
/// `;` (in which case `block` is absent).
pub struct AtRule {
    pub location: SourceLocation,
    pub name: String,
    pub prelude: Vec<ComponentValue>,
    pub block: Option<Vec<Node>>,
}

/// The content of a declaration list: declarations with interleaved
/// at-rules.
pub enum DeclarationListItem {
    Declaration(Declaration),
    AtRule(AtRule),
}

/// The content of a rule list: qualified rules with interleaved at-rules.
pub enum Rule {
    QualifiedRule(QualifiedRule),
    AtRule(AtRule),
}

/// A parse failure: where it happened and why.
#[derive(Clone, Copy, PartialEq, Eq, Structural, Debug)]
pub struct SyntaxError {
    pub location: SourceLocation,
    pub reason: ErrorReason,
}

/// Why a parse failed. This set is meant to be extended as more grammar
/// productions are parsed on top of this model.
#[derive(Clone, Copy, PartialEq, Eq, Structural, Debug)]
pub enum ErrorReason {
    /// Parsing a single "thing", found only whitespace.
    EmptyInput,
    /// Found more non-whitespace after parsing a single "thing".
    ExtraInput,
    /// End of input in a qualified rule prelude, before `{`.
    MissingQualifiedRuleBlock,
    InvalidDeclarationSyntax,
    InvalidBangImportantSyntax,
}

} // verus!
