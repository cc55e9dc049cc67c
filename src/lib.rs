//! Pre-authorization gate of a row-level access-control layer: structural
//! checks of bearer tokens, validation of their standard claims, cross-token
//! consistency, and the decision filter that applies operational mode and
//! fail mode to the outcome of a policy engine.

pub mod error;
pub mod json;
pub mod claims;
pub mod token;
pub mod standard;
pub mod consistency;
pub mod segments;
pub mod decode;
pub mod text;
pub mod jwt;
pub mod config;
pub mod decision;
pub mod resource;
pub mod audit;
