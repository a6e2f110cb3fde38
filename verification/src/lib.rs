//! A generic object store that keeps heterogeneous values behind stable,
//! generation-checked handles.  Each handle carries a compile-time type tag
//! describing how the entry it points to may currently be viewed; tags are
//! converted only along cast edges that the data-model author has declared.
//!
//! Slot allocation and stale-handle detection are delegated to the
//! `generational_arena` crate, used through the contracts in [`slot`].

mod arena;
mod erased;
mod handle;
mod slot;

pub use arena::AnyArena;
pub use arena::ArenaCell;
pub use arena::lemma_cast_paths_agree;
pub use arena::lemma_insert_round_trip;
pub use arena::lemma_stale_survives_insert;
pub use handle::CastFromIndex;
pub use handle::Index;
pub use handle::IndexCast;
