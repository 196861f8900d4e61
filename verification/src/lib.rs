//! A minimal static-file server library with a single-page-application
//! fallback: request routing, server bootstrap decisions, and leveled
//! console logging with millisecond timestamps.

pub mod bootstrap;
pub mod logs;
pub mod router;
pub mod text;
