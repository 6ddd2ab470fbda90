//! Builds request documents for the OFX financial-data exchange protocol:
//! a fixed text header followed by an SGML-style body in which leaf elements
//! stay unclosed and container elements are closed explicitly.

pub mod crypto;
pub mod date;
pub mod laws;
pub mod markup;
pub mod request;
pub mod token;
