pub mod ast;
pub mod context;
pub mod typechecking;
pub mod text;
pub mod cast;
pub mod subst;
pub mod eval;
pub mod lexer;
pub mod parser;
pub mod program;
pub mod safety;
pub mod notation;
pub mod names;
pub mod binding;
pub mod meaning;
