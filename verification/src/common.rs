pub mod clock;
pub mod jwt;
pub mod object_id;
pub mod response;
pub mod types;
