//! A small desktop-automation core: a decoder that turns opaque text payloads
//! into typed input-device actions, an executor that owns the one platform
//! input-injection handle, and a per-document resource store with a
//! read-fallback / write-through discipline, glued together by a dispatcher
//! for a fixed set of five synchronous commands.

pub mod action;
pub mod dispatch;
pub mod executor;
pub mod store;
