pub mod controller;
pub mod service;
