pub mod handler;
pub mod helper;
pub mod model;
pub mod password;
pub mod repository;
