//! The documents that the service reads and writes.

pub mod model_user;
pub mod property_model;
pub mod user_model;
