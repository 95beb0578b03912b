//! A verified core for a command-line weather client.
//!
//! One invocation is a single pass: resolve the city and API key, build
//! the request URL, fetch the response body, decode it as JSON into a
//! typed structure, and format the result as printable lines. The
//! blocking HTTP call lives outside this library; everything that
//! decides — URL assembly, strict schema decoding, the error taxonomy,
//! and the presentation — is specified and verified here. Parsing the
//! raw JSON text is delegated to serde_json behind a trusted boundary
//! in [`json`].

pub mod decode;
pub mod digits;
pub mod errors;
pub mod json;
pub mod model;
pub mod pct;
pub mod present;
pub mod report;
pub mod url;
