//! An in-process directory of community interest groups ("circles") for a
//! chat server: the cache that mirrors the persisted circle collection, the
//! identifier protocol that routes a button press back to a circle and an
//! action, and the membership toggle that turns a press into a role change.

pub mod cache;
pub mod errors;
pub mod payload;
pub mod ping;
pub mod protocol;
pub mod response;
pub mod schema;
pub mod service;
pub mod settings;
pub mod strutil;
pub mod toggle;
pub mod validate;
