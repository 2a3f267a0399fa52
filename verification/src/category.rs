pub mod handler;
pub mod model;
pub mod product;
pub mod repository;
