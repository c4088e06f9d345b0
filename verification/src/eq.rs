//! Structural (deep, by value) equality for the whole data model.
//!
//! The spec functions below say what it means for two values to be
//! structurally equal: same variant, and all payload fields equal
//! recursively, with text compared by its character sequence and block and
//! argument sequences compared element-wise in order. The executable `==`
//! of every type is proved to return exactly that relation.

use vstd::prelude::*;

use crate::ast::AtRule;
use crate::ast::ComponentValue;
use crate::ast::Declaration;
use crate::ast::DeclarationListItem;
use crate::ast::Node;
use crate::ast::NumericValue;
use crate::ast::QualifiedRule;
use crate::ast::Rule;

verus! {

/// Structural equality of two numeric values: same spelling, same
/// floating bit pattern, same optional integer value.
pub open spec fn numeric_eq(a: NumericValue, b: NumericValue) -> bool {
    &&& a.representation@ == b.representation@
    &&& a.value_bits == b.value_bits
    &&& a.int_value == b.int_value
}

/// Structural equality of two component values: same variant and equal
/// payloads, recursing into function arguments and block contents.
pub open spec fn value_eq(a: ComponentValue, b: ComponentValue) -> bool
    decreases a,
{
    match (a, b) {
        (ComponentValue::Ident(x), ComponentValue::Ident(y)) => x@ == y@,
        (ComponentValue::AtKeyword(x), ComponentValue::AtKeyword(y)) => x@ == y@,
        (ComponentValue::Hash(x), ComponentValue::Hash(y)) => x@ == y@,
        (ComponentValue::IDHash(x), ComponentValue::IDHash(y)) => x@ == y@,
        (ComponentValue::QuotedString(x), ComponentValue::QuotedString(y)) => x@ == y@,
        (ComponentValue::URL(x), ComponentValue::URL(y)) => x@ == y@,
        (ComponentValue::Delim(x), ComponentValue::Delim(y)) => x == y,
        (ComponentValue::Number(x), ComponentValue::Number(y)) => numeric_eq(x, y),
        (ComponentValue::Percentage(x), ComponentValue::Percentage(y)) => numeric_eq(x, y),
        (ComponentValue::Dimension(x, u), ComponentValue::Dimension(y, w)) => {
            numeric_eq(x, y) && u@ == w@
        },
        (ComponentValue::UnicodeRange(s1, e1), ComponentValue::UnicodeRange(s2, e2)) => {
            s1 == s2 && e1 == e2
        },
        (ComponentValue::WhiteSpace, ComponentValue::WhiteSpace) => true,
        (ComponentValue::Colon, ComponentValue::Colon) => true,
        (ComponentValue::Semicolon, ComponentValue::Semicolon) => true,
        (ComponentValue::Comma, ComponentValue::Comma) => true,
        (ComponentValue::IncludeMatch, ComponentValue::IncludeMatch) => true,
        (ComponentValue::DashMatch, ComponentValue::DashMatch) => true,
        (ComponentValue::PrefixMatch, ComponentValue::PrefixMatch) => true,
        (ComponentValue::SuffixMatch, ComponentValue::SuffixMatch) => true,
        (ComponentValue::SubstringMatch, ComponentValue::SubstringMatch) => true,
        (ComponentValue::Column, ComponentValue::Column) => true,
        (ComponentValue::CDO, ComponentValue::CDO) => true,
        (ComponentValue::CDC, ComponentValue::CDC) => true,
        (ComponentValue::Function(n1, a1), ComponentValue::Function(n2, a2)) => {
            n1@ == n2@ && value_seq_eq(a1@, a2@)
        },
        (ComponentValue::ParenthesisBlock(v1), ComponentValue::ParenthesisBlock(v2)) => {
            value_seq_eq(v1@, v2@)
        },
        (ComponentValue::SquareBracketBlock(v1), ComponentValue::SquareBracketBlock(v2)) => {
            value_seq_eq(v1@, v2@)
        },
        (ComponentValue::CurlyBracketBlock(v1), ComponentValue::CurlyBracketBlock(v2)) => {
            node_seq_eq(v1@, v2@)
        },
        (ComponentValue::BadURL, ComponentValue::BadURL) => true,
        (ComponentValue::BadString, ComponentValue::BadString) => true,
        (ComponentValue::CloseParenthesis, ComponentValue::CloseParenthesis) => true,
        (ComponentValue::CloseSquareBracket, ComponentValue::CloseSquareBracket) => true,
        (ComponentValue::CloseCurlyBracket, ComponentValue::CloseCurlyBracket) => true,
        _ => false,
    }
}

/// Element-wise structural equality of two component-value sequences.
pub open spec fn value_seq_eq(x: Seq<ComponentValue>, y: Seq<ComponentValue>) -> bool
    decreases x,
{
    &&& x.len() == y.len()
    &&& forall|i: int| 0 <= i < x.len() ==> value_eq(#[trigger] x[i], y[i])
}

/// Structural equality of two located nodes.
pub open spec fn node_eq(a: Node, b: Node) -> bool
    decreases a,
{
    value_eq(a.0, b.0) && a.1 == b.1
}

/// Element-wise structural equality of two node sequences.
pub open spec fn node_seq_eq(x: Seq<Node>, y: Seq<Node>) -> bool
    decreases x,
{
    &&& x.len() == y.len()
    &&& forall|i: int| 0 <= i < x.len() ==> node_eq(#[trigger] x[i], y[i])
}

/// Structural equality of two declarations.
pub open spec fn declaration_eq(a: Declaration, b: Declaration) -> bool {
    &&& a.location == b.location
    &&& a.name@ == b.name@
    &&& value_seq_eq(a.value@, b.value@)
    &&& a.important == b.important
}

/// Structural equality of two qualified rules.
pub open spec fn qualified_rule_eq(a: QualifiedRule, b: QualifiedRule) -> bool {
    &&& a.location == b.location
    &&& value_seq_eq(a.prelude@, b.prelude@)
    &&& node_seq_eq(a.block@, b.block@)
}

/// Structural equality of two at-rules; the optional blocks are equal when
/// both are absent or both present with equal contents.
pub open spec fn at_rule_eq(a: AtRule, b: AtRule) -> bool {
    &&& a.location == b.location
    &&& a.name@ == b.name@
    &&& value_seq_eq(a.prelude@, b.prelude@)
    &&& match (a.block, b.block) {
        (Some(x), Some(y)) => node_seq_eq(x@, y@),
        (None, None) => true,
        _ => false,
    }
}

/// Structural equality of two declaration-list items.
pub open spec fn declaration_list_item_eq(a: DeclarationListItem, b: DeclarationListItem) -> bool {
    match (a, b) {
        (DeclarationListItem::Declaration(x), DeclarationListItem::Declaration(y)) => {
            declaration_eq(x, y)
        },
        (DeclarationListItem::AtRule(x), DeclarationListItem::AtRule(y)) => at_rule_eq(x, y),
        _ => false,
    }
}

/// Structural equality of two rules.
pub open spec fn rule_eq(a: Rule, b: Rule) -> bool {
    match (a, b) {
        (Rule::QualifiedRule(x), Rule::QualifiedRule(y)) => qualified_rule_eq(x, y),
        (Rule::AtRule(x), Rule::AtRule(y)) => at_rule_eq(x, y),
        _ => false,
    }
}

impl ComponentValue {
    /// Deep structural equality; this is what `==` on component values
    /// computes.
    pub fn structural_eq(&self, other: &ComponentValue) -> (r: bool)
        ensures
            r == value_eq(*self, *other),
        decreases *self,
    {
        match (self, other) {
            (ComponentValue::Ident(x), ComponentValue::Ident(y)) => *x == *y,
            (ComponentValue::AtKeyword(x), ComponentValue::AtKeyword(y)) => *x == *y,
            (ComponentValue::Hash(x), ComponentValue::Hash(y)) => *x == *y,
            (ComponentValue::IDHash(x), ComponentValue::IDHash(y)) => *x == *y,
            (ComponentValue::QuotedString(x), ComponentValue::QuotedString(y)) => *x == *y,
            (ComponentValue::URL(x), ComponentValue::URL(y)) => *x == *y,
            (ComponentValue::Delim(x), ComponentValue::Delim(y)) => *x == *y,
            (ComponentValue::Number(x), ComponentValue::Number(y)) => x.numeric_eq(y),
            (ComponentValue::Percentage(x), ComponentValue::Percentage(y)) => x.numeric_eq(y),
            (ComponentValue::Dimension(x, u), ComponentValue::Dimension(y, w)) => {
                x.numeric_eq(y) && *u == *w
            },
            (ComponentValue::UnicodeRange(s1, e1), ComponentValue::UnicodeRange(s2, e2)) => {
                *s1 == *s2 && *e1 == *e2
            },
            (ComponentValue::WhiteSpace, ComponentValue::WhiteSpace) => true,
            (ComponentValue::Colon, ComponentValue::Colon) => true,
            (ComponentValue::Semicolon, ComponentValue::Semicolon) => true,
            (ComponentValue::Comma, ComponentValue::Comma) => true,
            (ComponentValue::IncludeMatch, ComponentValue::IncludeMatch) => true,
            (ComponentValue::DashMatch, ComponentValue::DashMatch) => true,
            (ComponentValue::PrefixMatch, ComponentValue::PrefixMatch) => true,
            (ComponentValue::SuffixMatch, ComponentValue::SuffixMatch) => true,
            (ComponentValue::SubstringMatch, ComponentValue::SubstringMatch) => true,
            (ComponentValue::Column, ComponentValue::Column) => true,
            (ComponentValue::CDO, ComponentValue::CDO) => true,
            (ComponentValue::CDC, ComponentValue::CDC) => true,
            (ComponentValue::Function(n1, a1), ComponentValue::Function(n2, a2)) => {
                *n1 == *n2 && value_vec_eq(a1, a2)
            },
            (ComponentValue::ParenthesisBlock(v1), ComponentValue::ParenthesisBlock(v2)) => {
                value_vec_eq(v1, v2)
            },
            (ComponentValue::SquareBracketBlock(v1), ComponentValue::SquareBracketBlock(v2)) => {
                value_vec_eq(v1, v2)
            },
            (ComponentValue::CurlyBracketBlock(v1), ComponentValue::CurlyBracketBlock(v2)) => {
                node_vec_eq(v1, v2)
            },
            (ComponentValue::BadURL, ComponentValue::BadURL) => true,
            (ComponentValue::BadString, ComponentValue::BadString) => true,
            (ComponentValue::CloseParenthesis, ComponentValue::CloseParenthesis) => true,
            (ComponentValue::CloseSquareBracket, ComponentValue::CloseSquareBracket) => true,
            (ComponentValue::CloseCurlyBracket, ComponentValue::CloseCurlyBracket) => true,
            _ => false,
        }
    }
}

impl NumericValue {
    /// Field-wise equality of two numeric values.
    pub fn numeric_eq(&self, other: &NumericValue) -> (r: bool)
        ensures
            r == numeric_eq(*self, *other),
    {
        let ints_eq = match (self.int_value, other.int_value) {
            (Some(x), Some(y)) => x == y,
            (None, None) => true,
            _ => false,
        };
        self.representation == other.representation && self.value_bits == other.value_bits
            && ints_eq
    }
}

/// Element-wise structural equality of two component-value vectors.
pub fn value_vec_eq(x: &Vec<ComponentValue>, y: &Vec<ComponentValue>) -> (r: bool)
    ensures
        r == value_seq_eq(x@, y@),
    decreases x@,
{
    if x.len() != y.len() {
        return false;
    }
    let n = x.len();
    let mut i: usize = 0;
    while i < n
        invariant
            n == x@.len() == y@.len(),
            i <= n,
            forall|j: int| 0 <= j < i ==> value_eq(#[trigger] x@[j], y@[j]),
        decreases n - i,
    {
        if !x[i].structural_eq(&y[i]) {
            return false;
        }
        i += 1;
    }
    true
}

impl PartialEq for ComponentValue {
    fn eq(&self, other: &ComponentValue) -> (r: bool)
        ensures
            r == value_eq(*self, *other),
    {
        self.structural_eq(other)
    }
}

impl vstd::std_specs::cmp::PartialEqSpecImpl for ComponentValue {
    open spec fn obeys_eq_spec() -> bool {
        true
    }

    open spec fn eq_spec(&self, other: &ComponentValue) -> bool {
        value_eq(*self, *other)
    }
}

impl PartialEq for NumericValue {
    fn eq(&self, other: &NumericValue) -> (r: bool)
        ensures
            r == numeric_eq(*self, *other),
    {
        self.numeric_eq(other)
    }
}

impl vstd::std_specs::cmp::PartialEqSpecImpl for NumericValue {
    open spec fn obeys_eq_spec() -> bool {
        true
    }

    open spec fn eq_spec(&self, other: &NumericValue) -> bool {
        numeric_eq(*self, *other)
    }
}

impl PartialEq for Declaration {
    fn eq(&self, other: &Declaration) -> (r: bool)
        ensures
            r == declaration_eq(*self, *other),
    {
        self.location == other.location && self.name == other.name
            && value_vec_eq(&self.value, &other.value) && self.important == other.important
    }
}

impl vstd::std_specs::cmp::PartialEqSpecImpl for Declaration {
    open spec fn obeys_eq_spec() -> bool {
        true
    }

    open spec fn eq_spec(&self, other: &Declaration) -> bool {
        declaration_eq(*self, *other)
    }
}

impl PartialEq for QualifiedRule {
    fn eq(&self, other: &QualifiedRule) -> (r: bool)
        ensures
            r == qualified_rule_eq(*self, *other),
    {
        self.location == other.location && value_vec_eq(&self.prelude, &other.prelude)
            && node_vec_eq(&self.block, &other.block)
    }
}

impl vstd::std_specs::cmp::PartialEqSpecImpl for QualifiedRule {
    open spec fn obeys_eq_spec() -> bool {
        true
    }

    open spec fn eq_spec(&self, other: &QualifiedRule) -> bool {
        qualified_rule_eq(*self, *other)
    }
}

impl PartialEq for AtRule {
    fn eq(&self, other: &AtRule) -> (r: bool)
        ensures
            r == at_rule_eq(*self, *other),
    {
        let blocks_eq = match (&self.block, &other.block) {
            (Some(x), Some(y)) => node_vec_eq(x, y),
            (None, None) => true,
            _ => false,
        };
        self.location == other.location && self.name == other.name
            && value_vec_eq(&self.prelude, &other.prelude) && blocks_eq
    }
}

impl vstd::std_specs::cmp::PartialEqSpecImpl for AtRule {
    open spec fn obeys_eq_spec() -> bool {
        true
    }

    open spec fn eq_spec(&self, other: &AtRule) -> bool {
        at_rule_eq(*self, *other)
    }
}

impl PartialEq for DeclarationListItem {
    fn eq(&self, other: &DeclarationListItem) -> (r: bool)
        ensures
            r == declaration_list_item_eq(*self, *other),
    {
        match (self, other) {
            (DeclarationListItem::Declaration(x), DeclarationListItem::Declaration(y)) => {
                *x == *y
            },
            (DeclarationListItem::AtRule(x), DeclarationListItem::AtRule(y)) => *x == *y,
            _ => false,
        }
    }
}

impl vstd::std_specs::cmp::PartialEqSpecImpl for DeclarationListItem {
    open spec fn obeys_eq_spec() -> bool {
        true
    }

    open spec fn eq_spec(&self, other: &DeclarationListItem) -> bool {
        declaration_list_item_eq(*self, *other)
    }
}

impl PartialEq for Rule {
    fn eq(&self, other: &Rule) -> (r: bool)
        ensures
            r == rule_eq(*self, *other),
    {
        match (self, other) {
            (Rule::QualifiedRule(x), Rule::QualifiedRule(y)) => *x == *y,
            (Rule::AtRule(x), Rule::AtRule(y)) => *x == *y,
            _ => false,
        }
    }
}

impl vstd::std_specs::cmp::PartialEqSpecImpl for Rule {
    open spec fn obeys_eq_spec() -> bool {
        true
    }

    open spec fn eq_spec(&self, other: &Rule) -> bool {
        rule_eq(*self, *other)
    }
}

/// Element-wise structural equality of two node vectors.
pub fn node_vec_eq(x: &Vec<Node>, y: &Vec<Node>) -> (r: bool)
    ensures
        r == node_seq_eq(x@, y@),
    decreases x@,
{
    if x.len() != y.len() {
        return false;
    }
    let n = x.len();
    let mut i: usize = 0;
    while i < n
        invariant
            n == x@.len() == y@.len(),
            i <= n,
            forall|j: int| 0 <= j < i ==> node_eq(#[trigger] x@[j], y@[j]),
        decreases n - i,
    {
        if !(x[i].0.structural_eq(&y[i].0) && x[i].1 == y[i].1) {
            return false;
        }
        i += 1;
    }
    true
}

/// Structural equality is reflexive: every component value, of every
/// variant, equals itself, including deep equality of nested structure.
pub proof fn lemma_value_eq_reflexive(a: ComponentValue)
    ensures
        value_eq(a, a),
    decreases a,
{
    match a {
        ComponentValue::Function(n, args) => {
            assert forall|i: int| 0 <= i < args@.len() implies value_eq(
                #[trigger] args@[i],
                args@[i],
            ) by {
                lemma_value_eq_reflexive(args@[i]);
            }
        },
        ComponentValue::ParenthesisBlock(v) => {
            assert forall|i: int| 0 <= i < v@.len() implies value_eq(#[trigger] v@[i], v@[i]) by {
                lemma_value_eq_reflexive(v@[i]);
            }
        },
        ComponentValue::SquareBracketBlock(v) => {
            assert forall|i: int| 0 <= i < v@.len() implies value_eq(#[trigger] v@[i], v@[i]) by {
                lemma_value_eq_reflexive(v@[i]);
            }
        },
        ComponentValue::CurlyBracketBlock(v) => {
            assert forall|i: int| 0 <= i < v@.len() implies node_eq(#[trigger] v@[i], v@[i]) by {
                lemma_value_eq_reflexive(v@[i].0);
            }
        },
        _ => {},
    }
}

/// Structural equality of component-value sequences is symmetric.
pub proof fn lemma_value_seq_eq_symmetric(x: Seq<ComponentValue>, y: Seq<ComponentValue>)
    ensures
        value_seq_eq(x, y) == value_seq_eq(y, x),
    decreases x,
{
    if value_seq_eq(x, y) {
        assert forall|i: int| 0 <= i < y.len() implies value_eq(#[trigger] y[i], x[i]) by {
            lemma_value_eq_symmetric(x[i], y[i]);
        }
    }
    if value_seq_eq(y, x) {
        assert forall|i: int| 0 <= i < x.len() implies value_eq(#[trigger] x[i], y[i]) by {
            lemma_value_eq_symmetric(x[i], y[i]);
        }
    }
}

/// Structural equality of node sequences is symmetric.
pub proof fn lemma_node_seq_eq_symmetric(x: Seq<Node>, y: Seq<Node>)
    ensures
        node_seq_eq(x, y) == node_seq_eq(y, x),
    decreases x,
{
    if node_seq_eq(x, y) {
        assert forall|i: int| 0 <= i < y.len() implies node_eq(#[trigger] y[i], x[i]) by {
            lemma_value_eq_symmetric(x[i].0, y[i].0);
        }
    }
    if node_seq_eq(y, x) {
        assert forall|i: int| 0 <= i < x.len() implies node_eq(#[trigger] x[i], y[i]) by {
            lemma_value_eq_symmetric(x[i].0, y[i].0);
        }
    }
}

/// Structural equality is symmetric: comparing in either order gives the
/// same answer, for every pair of component values.
pub proof fn lemma_value_eq_symmetric(a: ComponentValue, b: ComponentValue)
    ensures
        value_eq(a, b) == value_eq(b, a),
    decreases a,
{
    match (a, b) {
        (ComponentValue::Function(n1, a1), ComponentValue::Function(n2, a2)) => {
            lemma_value_seq_eq_symmetric(a1@, a2@);
        },
        (ComponentValue::ParenthesisBlock(v1), ComponentValue::ParenthesisBlock(v2)) => {
            lemma_value_seq_eq_symmetric(v1@, v2@);
        },
        (ComponentValue::SquareBracketBlock(v1), ComponentValue::SquareBracketBlock(v2)) => {
            lemma_value_seq_eq_symmetric(v1@, v2@);
        },
        (ComponentValue::CurlyBracketBlock(v1), ComponentValue::CurlyBracketBlock(v2)) => {
            lemma_node_seq_eq_symmetric(v1@, v2@);
        },
        _ => {},
    }
}

/// Structural equality of component-value sequences is transitive.
pub proof fn lemma_value_seq_eq_transitive(
    x: Seq<ComponentValue>,
    y: Seq<ComponentValue>,
    z: Seq<ComponentValue>,
)
    requires
        value_seq_eq(x, y),
        value_seq_eq(y, z),
    ensures
        value_seq_eq(x, z),
    decreases x,
{
    assert forall|i: int| 0 <= i < x.len() implies value_eq(#[trigger] x[i], z[i]) by {
        lemma_value_eq_transitive(x[i], y[i], z[i]);
    }
}

/// Structural equality of node sequences is transitive.
pub proof fn lemma_node_seq_eq_transitive(x: Seq<Node>, y: Seq<Node>, z: Seq<Node>)
    requires
        node_seq_eq(x, y),
        node_seq_eq(y, z),
    ensures
        node_seq_eq(x, z),
    decreases x,
{
    assert forall|i: int| 0 <= i < x.len() implies node_eq(#[trigger] x[i], z[i]) by {
        lemma_value_eq_transitive(x[i].0, y[i].0, z[i].0);
    }
}

/// Structural equality is transitive: two component values each equal to a
/// third are equal to each other.
pub proof fn lemma_value_eq_transitive(a: ComponentValue, b: ComponentValue, c: ComponentValue)
    requires
        value_eq(a, b),
        value_eq(b, c),
    ensures
        value_eq(a, c),
    decreases a,
{
    match (a, b, c) {
        (
            ComponentValue::Function(n1, a1),
            ComponentValue::Function(n2, a2),
            ComponentValue::Function(n3, a3),
        ) => {
            lemma_value_seq_eq_transitive(a1@, a2@, a3@);
        },
        (
            ComponentValue::ParenthesisBlock(v1),
            ComponentValue::ParenthesisBlock(v2),
            ComponentValue::ParenthesisBlock(v3),
        ) => {
            lemma_value_seq_eq_transitive(v1@, v2@, v3@);
        },
        (
            ComponentValue::SquareBracketBlock(v1),
            ComponentValue::SquareBracketBlock(v2),
            ComponentValue::SquareBracketBlock(v3),
        ) => {
            lemma_value_seq_eq_transitive(v1@, v2@, v3@);
        },
        (
            ComponentValue::CurlyBracketBlock(v1),
            ComponentValue::CurlyBracketBlock(v2),
            ComponentValue::CurlyBracketBlock(v3),
        ) => {
            lemma_node_seq_eq_transitive(v1@, v2@, v3@);
        },
        _ => {},
    }
}

} // verus!
