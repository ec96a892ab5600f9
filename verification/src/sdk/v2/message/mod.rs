//! The messages of the `/v2/feedbacks` protocol as one tagged union per direction.
pub mod client;
pub mod server;
