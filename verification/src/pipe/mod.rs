pub mod pipe;
pub mod pipe_definitions;
pub mod pipe_executors;
