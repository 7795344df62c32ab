//! Tagged serialization of values behind a dynamically dispatched interface.
//!
//! Serialized values carry a string discriminant ("tag") naming their concrete
//! type. A directive attached to the interface selects one of three wire-level
//! tagging schemes; a directive attached to each implementation selects its
//! discriminant. A per-interface registry maps discriminants to factories, and
//! the dispatch algorithm decodes a wire node into a discriminant and a
//! payload for the chosen factory.

pub mod decl;
pub mod directive;
pub mod errors;
pub mod node;
pub mod registry;
pub mod wire;
