pub mod compiler;
pub mod evaluator;
pub mod handling;
pub mod internals;
pub mod lexer;
pub mod parser;
pub mod state;
