//! ROOC: the core of an optimization modeling language — operators and
//! their precedence, the token grammar, expression parsing by precedence,
//! the primitive type system and its operator rules, exact scalar
//! arithmetic, graphs, the text of variable domains, the type checker of
//! the intermediate language's expressions, and error values with their
//! traces.
pub mod consts;
pub mod lexer;
pub mod math;
pub mod math_exp_enums;
pub mod parser;
pub mod pipe;
pub mod primitives;
pub mod text;
pub mod type_checker;
