//! The account service over the older user records.

pub mod service_user;
