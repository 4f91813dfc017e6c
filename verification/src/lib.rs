//! A small verified client core for a current-temperature lookup against the
//! open-meteo JMA endpoint.
//!
//! The crate holds the computational heart of the client: building the query
//! URL from a coordinate pair, classifying the HTTP status, and interpreting
//! the response body as either an error payload or a weather payload. Network
//! I/O and command-line handling live outside the library.

pub mod json;
pub mod params;
pub mod request;
pub mod response;
