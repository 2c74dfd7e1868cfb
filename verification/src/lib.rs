//! A client library for the HTTP API of a time-series database: the line
//! protocol that carries points to the server, the requests of each operation,
//! and the reading of the server's answers.

/// The operations of the server
pub mod api;
/// API Functions are implemented for influxdb_rs::client::Client
pub mod client;
/// Schema of the values that travel to and from the server
pub mod data_model;
/// Error module
pub mod error;
/// How a text in the line protocol is read back
pub mod line_reader;
/// What a web application's configuration says of the client
pub mod rocket_driver;
/// Serialization module
pub mod serialization;
/// Text building blocks
pub mod text;

pub use client::Client;
pub use data_model::data_points::{Point, Points, Precision, Value};
pub use error::Error;

pub use reqwest;
