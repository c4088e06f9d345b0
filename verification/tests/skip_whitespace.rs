use css_ast::ComponentValue;
use css_ast::NumericValue;
use css_ast::whitespace::MoveSkipWhitespaceIterable;
use css_ast::whitespace::SkipWhitespaceIterable;

fn num42() -> NumericValue {
    NumericValue {
        representation: "42".to_string(),
        value_bits: 42.0f64.to_bits(),
        int_value: Some(42),
    }
}

fn example_sequence() -> Vec<ComponentValue> {
    vec![
        ComponentValue::Ident("a".to_string()),
        ComponentValue::WhiteSpace,
        ComponentValue::WhiteSpace,
        ComponentValue::Colon,
        ComponentValue::WhiteSpace,
        ComponentValue::Number(num42()),
    ]
}

#[test]
fn borrowing_iteration_skips_whitespace() {
    let seq = example_sequence();
    let mut it = seq.as_slice().skip_whitespace();
    let expected = vec![
        ComponentValue::Ident("a".to_string()),
        ComponentValue::Colon,
        ComponentValue::Number(num42()),
    ];
    let mut got: Vec<&ComponentValue> = Vec::new();
    while let Some(c) = it.next() {
        got.push(c);
    }
    assert_eq!(got.len(), expected.len());
    for (g, e) in got.iter().zip(expected.iter()) {
        assert!(*g == e);
    }
    // exhausted: further calls keep yielding none
    assert!(it.next().is_none());
    // the borrowed sequence is still usable afterwards
    assert_eq!(seq.len(), 6);
}

#[test]
fn borrowing_collect_yields_all_non_whitespace() {
    let seq = example_sequence();
    let collected = seq.as_slice().skip_whitespace().collect_to_vec();
    assert_eq!(collected.len(), 3);
    assert!(*collected[0] == ComponentValue::Ident("a".to_string()));
    assert!(*collected[1] == ComponentValue::Colon);
    assert!(*collected[2] == ComponentValue::Number(num42()));
}

#[test]
fn consuming_iteration_yields_same_items_as_owned_values() {
    let borrowed_side = example_sequence();
    let refs = borrowed_side.as_slice().skip_whitespace().collect_to_vec();

    let owned = example_sequence().move_skip_whitespace().collect_to_vec();
    assert_eq!(owned.len(), refs.len());
    for (o, r) in owned.iter().zip(refs.iter()) {
        assert!(o == *r);
    }
}

#[test]
fn consuming_iteration_via_next() {
    let mut it = example_sequence().move_skip_whitespace();
    assert!(it.next() == Some(ComponentValue::Ident("a".to_string())));
    assert!(it.next() == Some(ComponentValue::Colon));
    assert!(it.next() == Some(ComponentValue::Number(num42())));
    assert!(it.next().is_none());
    assert!(it.next().is_none());
}

#[test]
fn whitespace_only_and_empty_sequences_yield_nothing() {
    let empty: Vec<ComponentValue> = vec![];
    assert_eq!(empty.as_slice().skip_whitespace().collect_to_vec().len(), 0);
    let ws_only = vec![
        ComponentValue::WhiteSpace,
        ComponentValue::WhiteSpace,
        ComponentValue::WhiteSpace,
    ];
    assert_eq!(ws_only.as_slice().skip_whitespace().collect_to_vec().len(), 0);
    assert!(ws_only.move_skip_whitespace().next().is_none());
}

#[test]
fn adjacent_whitespace_collapses_to_zero_items_each() {
    // three non-whitespace among five whitespace tokens
    let seq = vec![
        ComponentValue::WhiteSpace,
        ComponentValue::Comma,
        ComponentValue::WhiteSpace,
        ComponentValue::WhiteSpace,
        ComponentValue::Semicolon,
        ComponentValue::WhiteSpace,
        ComponentValue::Colon,
        ComponentValue::WhiteSpace,
    ];
    let collected = seq.as_slice().skip_whitespace().collect_to_vec();
    assert_eq!(collected.len(), 3);
    assert!(*collected[0] == ComponentValue::Comma);
    assert!(*collected[1] == ComponentValue::Semicolon);
    assert!(*collected[2] == ComponentValue::Colon);
}
