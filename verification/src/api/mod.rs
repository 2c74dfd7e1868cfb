//! The operations of the server: what is sent for each, and how its answer is
//! read.

/// What is sent for each operation
pub mod request;
/// Reading the server's answers
pub mod response;
