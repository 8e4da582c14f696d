//! Core of a live audio capture pipeline that emits raw samples as a
//! headerless byte stream.
//!
//! The modules hold the parts of the pipeline that are pure logic:
//! resolving user parameters into a capture configuration, binding the
//! default input device's capabilities to stream settings, serializing
//! sample buffers into wire bytes, and the FIFO hand-off from the
//! realtime producer to the writer loop. The audio backend, argument
//! parsing and standard-output I/O live outside the library.

pub mod codec;
pub mod config;
pub mod device;
pub mod queue;
