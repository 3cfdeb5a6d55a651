pub mod block_functions;
pub mod iterable_set;
pub mod il_exp;
