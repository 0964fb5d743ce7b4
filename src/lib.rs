pub mod builtins;
pub mod error;
pub mod lexer;
pub mod redirect;
pub mod resolver;
pub mod shell;
pub mod text;
