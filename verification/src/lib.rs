//! Intermediate representation for a CSS Syntax Level 3 tokenizer/parser:
//! the component-value tree produced by tokenization, the declaration /
//! rule / at-rule records built on top of it, the structured syntax-error
//! type, and whitespace-skipping traversal over component-value sequences.

pub mod ast;
pub mod eq;
pub mod important;
pub mod numeric;
pub mod render;
pub mod whitespace;

pub use ast::AtRule;
pub use ast::ComponentValue;
pub use ast::Declaration;
pub use ast::DeclarationListItem;
pub use ast::ErrorReason;
pub use ast::Node;
pub use ast::NumericValue;
pub use ast::QualifiedRule;
pub use ast::Rule;
pub use ast::SourceLocation;
pub use ast::SyntaxError;
pub use whitespace::MoveSkipWhitespaceIterable;
pub use whitespace::MoveSkipWhitespaceIterator;
pub use whitespace::SkipWhitespaceIterable;
pub use whitespace::SkipWhitespaceIterator;
