//! Bookkeeping for recording GPU transfer work.
//!
//! The heart of the crate is [`resource_state`]: two registries that decide,
//! for each read or write recorded against a buffer or an image on a transfer
//! queue, whether a memory barrier (and, for images, a layout transition) must
//! be emitted before the access, and with which exact scopes. The remaining
//! modules hold the small value types that surround the trackers: object-set
//! registries, pass bookkeeping, format metadata and allocation strategies.
//!
//! All GPU-facing values (handles, access masks, stage masks, layouts) are
//! carried as the plain integers the GPU API defines them as; callers convert
//! them to their driver bindings at the edge.

pub mod allocator;
pub mod barrier;
pub mod debug_messenger;
pub mod format;
pub mod object_set;
pub mod pass;
pub mod resource_state;
