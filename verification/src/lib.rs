//! The logic of a host for audio plug-ins that follow the VST 3 binary
//! interface: what it finds on disk, how it loads a module and makes an
//! instance, what it hands to the processor for each block, and whom it
//! calls when a plug-in asked to be called.
//!
//! Everything here works on plain values. Mapping libraries, calling into
//! plug-ins, polling and threads are left to the program around it, which
//! does what this library tells it to do.

pub mod application;
pub mod component;
pub mod editor;
pub mod error;
pub mod host;
pub mod module;
pub mod plugin;
pub mod prelude;
pub mod processor;
pub mod run_loop;
pub mod unit;
pub mod util;
pub mod view;
