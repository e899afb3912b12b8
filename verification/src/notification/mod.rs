pub mod hub;
pub mod model;
