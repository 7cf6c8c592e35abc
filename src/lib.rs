//! Persistence of a network service's settings: the settings record, its JSON
//! document, and the write-then-rename protocol that replaces the settings file
//! without ever leaving it half written.
pub mod json;
pub mod settings;
pub mod error;
pub mod store;
pub mod durability;
