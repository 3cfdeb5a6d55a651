pub mod transform_error;
pub mod model;
