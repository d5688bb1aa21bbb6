//! A local registry of identity records.
//!
//! The registry keeps one kind of entity, a [`member::Member`]: a person's
//! name, guardian name, gender, national identity number (CNIC), three
//! text-encoded dates and two optional scan images. The store assigns each
//! persisted record a unique numeric id and a creation stamp, enforces that
//! the CNIC number is unique across all records, and offers five operations:
//! create, list, find by CNIC, update and delete.
//!
//! The [`registry::Registry`] type holds the records; a host program is
//! expected to load it from and mirror it to durable storage.

pub mod greeting;
pub mod laws;
pub mod member;
pub mod registry;
