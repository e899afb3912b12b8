pub mod controller;
pub mod jwt;
pub mod service;
