//! Front end for a small C-like language: a lexer that turns source text into
//! line-tagged tokens, and a recursive-descent parser that turns those tokens
//! into an abstract syntax tree of statements and expressions.

pub mod ast;
pub mod caracteres;
pub mod lexer;
pub mod numero;
pub mod parser;
pub mod token;

pub use ast::Expr;
pub use ast::Operador;
pub use ast::Parametro;
pub use ast::Stmt;
pub use lexer::ErroLexico;
pub use lexer::Lexer;
pub use parser::ErroParse;
pub use parser::Parser;
pub use token::Token;
