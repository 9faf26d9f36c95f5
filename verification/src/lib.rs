//! Core of a launcher for a versioned, platform-dependent software
//! distribution. The library resolves a chain of version manifests into a
//! deduplicated download work list, drives that list through a bounded-retry
//! fetch queue, and assembles the final launch-argument vector. Network and
//! file I/O live outside the library; every function here is verified.

pub mod auth;
pub mod fetch;
pub mod launch;
pub mod manifest;
pub mod paths;
pub mod platform;
pub mod resolver;
pub mod text;
pub mod util;
