//! Application catalog for a desktop launcher: discovery records are filtered,
//! deduplicated by name and given an icon payload read from an ICNS container.
pub mod apps;
pub mod cache;
pub mod catalog;
pub mod icon;
