//! A verified core for a small daily-digest web front end.
//!
//! The library holds the logic of the server: strict `YYYYMMDD` date
//! parsing, the localized calendar-date display, request routing, the
//! HTML rendering of a digest, and the response model. The surrounding
//! program (socket handling, TLS, HTTP framing, JSON decoding) lives
//! outside and hands this library plain values.

pub mod content;
pub mod date;
pub mod render;
pub mod response;
pub mod routes;
pub mod serve;
pub mod strings;
