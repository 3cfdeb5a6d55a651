pub mod builtin_primitive_traits_impl;
pub mod graph;
pub mod iterable;
pub mod primitive;
pub mod primitive_traits;
pub mod tuple;
