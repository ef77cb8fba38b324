//! Account model and authentication rules of the Mondrian task service:
//! password hashing and checking, user records and their public views,
//! login and registration decisions, and the service's error replies.

pub mod crypto;
pub mod clock;
pub mod tasks;
pub mod users;
pub mod errors;
pub mod serializers;
pub mod text;
pub mod handlers;
pub mod extractors;
pub mod laws;
pub mod tokens;
