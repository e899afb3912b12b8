pub mod controller;
pub mod flow;
pub mod laws;
pub mod model;
pub mod rules;
pub mod service;
pub mod tree;
