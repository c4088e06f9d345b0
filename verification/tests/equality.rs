use css_ast::AtRule;
use css_ast::ComponentValue;
use css_ast::Declaration;
use css_ast::DeclarationListItem;
use css_ast::NumericValue;
use css_ast::QualifiedRule;
use css_ast::Rule;
use css_ast::SourceLocation;

fn num(rep: &str, value: f64, int_value: Option<i64>) -> NumericValue {
    NumericValue {
        representation: rep.to_string(),
        value_bits: value.to_bits(),
        int_value,
    }
}

fn nested_function() -> ComponentValue {
    ComponentValue::Function(
        "calc".to_string(),
        vec![
            ComponentValue::Number(num("1", 1.0, Some(1))),
            ComponentValue::WhiteSpace,
            ComponentValue::Delim('+'),
            ComponentValue::ParenthesisBlock(vec![
                ComponentValue::Percentage(num("50", 50.0, Some(50))),
            ]),
        ],
    )
}

#[test]
fn equality_is_reflexive_on_scalars() {
    let values = vec![
        ComponentValue::Ident("a".to_string()),
        ComponentValue::AtKeyword("media".to_string()),
        ComponentValue::Hash("fff".to_string()),
        ComponentValue::IDHash("main".to_string()),
        ComponentValue::QuotedString("hi".to_string()),
        ComponentValue::URL("x.png".to_string()),
        ComponentValue::Delim('!'),
        ComponentValue::Number(num("42", 42.0, Some(42))),
        ComponentValue::Percentage(num("1.5", 1.5, None)),
        ComponentValue::Dimension(num("2", 2.0, Some(2)), "em".to_string()),
        ComponentValue::UnicodeRange(0x41, 0x5a),
        ComponentValue::WhiteSpace,
        ComponentValue::Colon,
        ComponentValue::Semicolon,
        ComponentValue::Comma,
        ComponentValue::IncludeMatch,
        ComponentValue::DashMatch,
        ComponentValue::PrefixMatch,
        ComponentValue::SuffixMatch,
        ComponentValue::SubstringMatch,
        ComponentValue::Column,
        ComponentValue::CDO,
        ComponentValue::CDC,
        ComponentValue::BadURL,
        ComponentValue::BadString,
        ComponentValue::CloseParenthesis,
        ComponentValue::CloseSquareBracket,
        ComponentValue::CloseCurlyBracket,
    ];
    for v in &values {
        assert!(v == v);
    }
    for (i, v) in values.iter().enumerate() {
        for (j, w) in values.iter().enumerate() {
            if i != j {
                assert!(v != w);
            }
        }
    }
}

#[test]
fn equality_is_deep_and_symmetric() {
    let a = nested_function();
    let b = nested_function();
    assert!(a == b);
    assert!(b == a);

    // a difference deep inside an argument breaks equality
    let c = ComponentValue::Function(
        "calc".to_string(),
        vec![
            ComponentValue::Number(num("1", 1.0, Some(1))),
            ComponentValue::WhiteSpace,
            ComponentValue::Delim('+'),
            ComponentValue::ParenthesisBlock(vec![
                ComponentValue::Percentage(num("51", 51.0, Some(51))),
            ]),
        ],
    );
    assert!(a != c);
    assert!(c != a);
}

#[test]
fn equality_is_transitive() {
    let a = nested_function();
    let b = nested_function();
    let c = nested_function();
    assert!(a == b);
    assert!(b == c);
    assert!(a == c);
}

#[test]
fn equality_compares_curly_block_nodes_with_locations() {
    let loc1 = SourceLocation { line: 1, column: 2 };
    let loc2 = SourceLocation { line: 1, column: 3 };
    let block1 = ComponentValue::CurlyBracketBlock(vec![(
        ComponentValue::Ident("a".to_string()),
        loc1,
    )]);
    let block2 = ComponentValue::CurlyBracketBlock(vec![(
        ComponentValue::Ident("a".to_string()),
        loc1,
    )]);
    let block3 = ComponentValue::CurlyBracketBlock(vec![(
        ComponentValue::Ident("a".to_string()),
        loc2,
    )]);
    assert!(block1 == block2);
    assert!(block1 != block3);
}

#[test]
fn equality_distinguishes_block_kinds() {
    let paren = ComponentValue::ParenthesisBlock(vec![ComponentValue::Ident("x".to_string())]);
    let square = ComponentValue::SquareBracketBlock(vec![ComponentValue::Ident("x".to_string())]);
    assert!(paren != square);
}

#[test]
fn record_types_compare_structurally() {
    let loc = SourceLocation { line: 4, column: 7 };
    let decl = |imp: bool| Declaration {
        location: loc,
        name: "color".to_string(),
        value: vec![ComponentValue::Ident("red".to_string())],
        important: imp,
    };
    assert!(decl(true) == decl(true));
    assert!(decl(true) != decl(false));

    let qual = || QualifiedRule {
        location: loc,
        prelude: vec![ComponentValue::Ident("body".to_string())],
        block: vec![(ComponentValue::Semicolon, loc)],
    };
    assert!(qual() == qual());

    let at = |block: Option<Vec<(ComponentValue, SourceLocation)>>| AtRule {
        location: loc,
        name: "media".to_string(),
        prelude: vec![],
        block,
    };
    assert!(at(None) == at(None));
    assert!(at(Some(vec![])) == at(Some(vec![])));
    assert!(at(None) != at(Some(vec![])));

    assert!(
        DeclarationListItem::Declaration(decl(false))
            == DeclarationListItem::Declaration(decl(false))
    );
    assert!(
        DeclarationListItem::Declaration(decl(false)) != DeclarationListItem::AtRule(at(None))
    );
    assert!(Rule::AtRule(at(None)) == Rule::AtRule(at(None)));
    assert!(Rule::QualifiedRule(qual()) != Rule::AtRule(at(None)));
}

#[test]
fn numeric_values_compare_by_all_fields() {
    assert!(num("42", 42.0, Some(42)) == num("42", 42.0, Some(42)));
    assert!(num("42", 42.0, Some(42)) != num("42.0", 42.0, None));
    assert!(num("42", 42.0, Some(42)) != num("42", 42.5, Some(42)));
}
