//! Resource-management core of a GPU renderer.
//!
//! The crate models the bookkeeping half of a forward renderer with
//! tile-based light culling, directional and point-light shadow maps and
//! post-process anti-aliasing: which textures and buffers exist, how
//! large they are, how typed buffers grow, when bind groups have to be
//! rebuilt, how draw instructions are batched, and how dynamic offsets
//! address the per-face records of the point-shadow pass.  Everything
//! that must be handed to a graphics device (float uniform payloads,
//! byte serialisation, the actual device calls) is referenced through
//! opaque handles and performed by the embedding application.

pub mod buffer;
pub mod context;
pub mod device;
pub mod forward;
pub mod frame;
pub mod instruction;
pub mod interface;
pub mod marker;
pub mod point_shadow;
pub mod screen;
pub mod settings;
pub mod texture;
