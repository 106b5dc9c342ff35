//! Backend-agnostic description of GPU resources: vertex layouts, owning
//! resource handles and the queue of resources waiting to be released.

pub mod backend;
pub mod buffer;
mod handle;
pub mod pipeline;
pub mod render_texture;
pub mod resource;
mod sync;
pub mod texture;
pub mod vertex;
