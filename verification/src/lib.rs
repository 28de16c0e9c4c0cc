//! A cooperative, single-threaded coroutine library.
//!
//! Ordinary sequential function bodies gain the ability to pause and resume:
//! a syntax rewriter expands two in-body markers -- "await an inner
//! computation" and "suspend now" -- into primitive pause/resume operations,
//! and a runtime adapter wraps the resulting resumable procedure so that it
//! satisfies a uniform non-blocking poll contract an external scheduler can
//! drive.

pub mod adapter;
pub mod ast;
pub mod demo;
pub mod future;
pub mod laws;
pub mod rewrite;
pub mod timer;
pub mod waker;
