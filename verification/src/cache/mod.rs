pub mod memory;
pub mod facade;
