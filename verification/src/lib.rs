//! The front end and execution core of a small scripting language.
//!
//! Source text is tokenized into classified lexemes with source positions,
//! parsed by recursive descent into a position-annotated syntax tree, and
//! evaluated by walking that tree against a stack of lexical scopes.
//!
//! Every stage carries a mathematical model: the tokenizer and parser are
//! proved to agree with a specification-level grammar over the character
//! sequence of the source, and the environment and evaluator are proved
//! to agree with a model over maps from names to values.

pub mod ast;
pub mod lexer;
pub mod parser;
pub mod runtime;
pub mod span;
