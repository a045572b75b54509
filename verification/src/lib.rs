//! Verified core of a photo/video organizer.
//!
//! The library plans how media files are filed into a date-structured
//! directory tree: it models paths, resolves capture timestamps, digests
//! file content, synthesizes destination paths, and decides what a copy or
//! move operation may do when the destination already exists.  All file
//! system access, subprocess invocation and CLI handling live outside the
//! library; callers feed plain values in and carry the planned actions out.

pub mod exiftool;
pub mod files;
pub mod hash;
pub mod media;
pub mod paths;
pub mod render;
pub mod timestamp;
