//! A verified core for filesystem-change notification over Linux's inotify.
//!
//! The library holds the normalised event and error taxonomies, the ordered
//! close-aware event buffer, and the translation of native inotify records
//! into normalised events, each with a contract proved by Verus.

pub mod backend;
pub mod buffer;
pub mod capability;
pub mod error;
pub mod event;
pub mod native;
