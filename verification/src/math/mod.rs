pub mod math_enums;
pub mod operators;
