pub mod handler;
pub mod helper;
pub mod model;
pub mod repository;
pub mod stock;
