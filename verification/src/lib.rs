//! Persistence layer for a key-value backend: a typed key codec that maps
//! entity and component identifiers to and from the store's wire encoding,
//! and the decision logic of a connection actor that serializes access to a
//! single backend connection through a command channel.

pub mod actor;
pub mod config;
pub mod key;
pub mod single;
