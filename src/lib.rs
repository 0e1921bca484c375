//! Builder generation for plain record types.
//!
//! Given the schema of a record with named fields, the library computes the
//! declarations of a companion builder type (`schema`, `synth`), offers a
//! builder that works from such a definition at run time (`record`), and
//! holds one record type with its builder written out (`command`).
pub mod schema;
pub mod synth;
pub mod record;
pub mod command;
