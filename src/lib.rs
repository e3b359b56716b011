//! Resolves a requested game version against a version catalog and drives a
//! verified download of the matching server or client jar.

pub mod args;
pub mod catalog;
pub mod download;
pub mod report;
pub mod session;
