//! What a web application's configuration says of the client.

/// The configuration of the client
pub mod influx_config;
