//! A streaming directory-scanning engine.
//!
//! The crate holds the decisions of a disk-usage scanner: how the bytes of a
//! subtree are summed, which events a scan emits for the children of its root,
//! what a deletion batch reports for each path, and which mount points a host
//! offers. Reading the file system and delivering events is left to the
//! caller, who hands in what it observed as plain values.

pub mod child;
pub mod delete;
pub mod disks;
pub mod engine;
pub mod entry;
pub mod event;
pub mod laws;
pub mod model;
pub mod size;
