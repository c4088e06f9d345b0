use css_ast::ComponentValue;
use css_ast::Declaration;
use css_ast::SourceLocation;
use css_ast::important::strip_bang_important;

#[test]
fn trailing_bang_important_is_detected_and_stripped() {
    let value = vec![
        ComponentValue::Ident("red".to_string()),
        ComponentValue::WhiteSpace,
        ComponentValue::Delim('!'),
        ComponentValue::Ident("important".to_string()),
    ];
    let (stripped, important) = strip_bang_important(value);
    assert!(important);
    let expected = vec![ComponentValue::Ident("red".to_string())];
    assert!(stripped == expected);

    // a conforming parser stores exactly this outcome
    let decl = Declaration {
        location: SourceLocation { line: 1, column: 1 },
        name: "color".to_string(),
        value: stripped,
        important,
    };
    assert!(decl.important);
    assert!(decl.value == vec![ComponentValue::Ident("red".to_string())]);
}

#[test]
fn keyword_is_case_insensitive_and_whitespace_tolerant() {
    let value = vec![
        ComponentValue::Ident("red".to_string()),
        ComponentValue::Delim('!'),
        ComponentValue::WhiteSpace,
        ComponentValue::Ident("IMPORTANT".to_string()),
        ComponentValue::WhiteSpace,
    ];
    let (stripped, important) = strip_bang_important(value);
    assert!(important);
    assert!(stripped == vec![ComponentValue::Ident("red".to_string())]);
}

#[test]
fn values_without_the_marker_are_unchanged() {
    let plain = vec![
        ComponentValue::Ident("red".to_string()),
        ComponentValue::WhiteSpace,
    ];
    let (kept, important) = strip_bang_important(plain);
    assert!(!important);
    assert!(
        kept == vec![
            ComponentValue::Ident("red".to_string()),
            ComponentValue::WhiteSpace,
        ]
    );

    // the keyword without the bang is no marker
    let no_bang = vec![ComponentValue::Ident("important".to_string())];
    let (kept, important) = strip_bang_important(no_bang);
    assert!(!important);
    assert!(kept == vec![ComponentValue::Ident("important".to_string())]);

    // the bang without the keyword is no marker
    let no_keyword = vec![
        ComponentValue::Delim('!'),
        ComponentValue::Ident("unimportant".to_string()),
    ];
    let (_kept, important) = strip_bang_important(no_keyword);
    assert!(!important);

    // empty values have nothing to strip
    let (kept, important) = strip_bang_important(Vec::new());
    assert!(!important);
    assert!(kept.is_empty());
}
