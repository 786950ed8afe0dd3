//! Resource-management core of a batched 2D rendering layer.
//!
//! Rendering many sprites or meshes per frame efficiently comes down to a
//! handful of bookkeeping policies: sub-allocating uniform data out of a pool
//! of fixed-capacity buffers that grows on demand and is reset in bulk each
//! frame, recycling whole instance buffers through a best-fit free list,
//! persisting instance records in a buffer whose identity changes exactly
//! when it must be reallocated, and caching bind groups by resource identity
//! so each distinct resource costs at most one GPU object creation.
//!
//! This crate holds those policies, verified. GPU objects appear only as
//! integer handles and slot indices; the thin layer that owns the actual
//! device turns each decision made here (grow, reuse, create, write at an
//! offset) into the corresponding GPU call.

mod bind_cache;
mod draw;
mod growing;
mod ids;
mod layout;
mod mesh;
mod pool;
mod uniform;

pub use bind_cache::lemma_second_get_is_hit;
pub use bind_cache::BindCache;
pub use draw::DrawArray;
pub use growing::first_fit;
pub use growing::lemma_allocate_after_free;
pub use growing::lemma_first_fit_characterization;
pub use growing::slot_fits;
pub use growing::ArenaAllocation;
pub use growing::GrowingBufferArena;
pub use ids::IdSource;
pub use layout::VertexAttribute;
pub use mesh::Mesh;
pub use pool::best_fit;
pub use pool::eligible;
pub use pool::lemma_best_fit_characterization;
pub use pool::lemma_exact_fit_is_reused;
pub use pool::Acquisition;
pub use pool::InstanceBuffer;
pub use pool::InstancePool;
pub use uniform::is_power_of_two;
pub use uniform::pad_uniform_size;
