//! A local application registry and launcher engine.
//!
//! Dropped files are registered as entries in a directory-backed store:
//! web-shortcut (`.url`) files are copied byte for byte, everything else is
//! hard-linked (with a copy as fallback when linking is impossible). The
//! store is rebuilt wholesale from the directory at startup, and registered
//! entries can be launched by display index.

pub mod paths;
pub mod store;
pub mod service;
pub mod platform;
pub mod laws;
