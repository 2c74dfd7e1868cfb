//! The values that travel to and from the server.

/// Authorization Structs
pub mod authorization;
/// Bucket Structs
pub mod bucket;
/// Data Points and Value Structs
pub mod data_points;
/// Decimal numerals for floats
pub mod decimal;
/// File Struct used for external Flux queries
pub mod file;
/// Label Structs
pub mod labels;
/// Links Structs
pub mod links;
/// Organization Structs
pub mod org;
/// Query Structs
pub mod query;
/// Retention Rules Structs
pub mod retention_rules;
/// User Structs
pub mod user;
