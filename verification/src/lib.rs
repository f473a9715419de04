//! A verified core for bringing up and tearing down a Vulkan instance.
//!
//! The crate performs no native call itself. It decides what an instance is
//! created with, in which order the loader is consulted, which failure ends an
//! attempt, and when the instance may be rendered to or released; the caller
//! carries out the native work and reports back.

pub mod app;
pub mod bootstrap;
pub mod error;
pub mod name;
pub mod request;
pub mod version;
