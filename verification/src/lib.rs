//! Front end of a compiler for a small declarative DSL that describes an API
//! surface: a lexer, a recursive-descent grammar parser, a structured error
//! model, and a project assembler that folds per-file declarations into one
//! project value.
//!
//! Every executable function is specified against a reference semantics
//! written as spec functions: the lexer against [`token::lex`], and each
//! grammar function against its `spec_parse_*` counterpart in [`grammar`].

pub mod dict;
pub mod errors;
pub mod grammar;
pub mod laws;
pub mod parser;
pub mod scan;
pub mod token;
pub mod types;
