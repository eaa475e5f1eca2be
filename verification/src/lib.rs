//! A cooperative task scheduler for one core: priority-bucketed task storage
//! with per-slot notification bitmaps, the saved-context handle that the
//! context switch works on, and the per-core runtime that binds them.

pub mod arch;
pub mod context;
pub mod executor;
pub mod priority;
pub mod runtime;
pub mod slab;
pub mod storage;
pub mod task;
pub mod waker_page;
