//! Typed, verified decoding of handles owned by a dynamic-instrumentation host.
//!
//! The host hands out opaque handles: pointers, register snapshots, module
//! and thread descriptors. This library turns them into typed values, keeps
//! the handle each value was decoded from, and gives that handle back
//! unchanged when the value is handed to the host again.
pub mod apiresolver;
pub mod arch;
pub mod cpu;
pub mod debugsymbol;
pub mod error;
pub mod extract;
pub mod fromsys;
pub mod handle;
pub mod interceptor;
pub mod memory;
pub mod module;
pub mod modulemap;
pub mod nativepointer;
pub mod process;
pub mod range;
pub mod sys;
pub mod text;
pub mod thread;
