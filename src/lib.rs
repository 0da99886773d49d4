//! Register synchronisation and context locking for a shared execution engine.
//!
//! `pku` decides how the per-thread protection-key register is brought to a
//! process-wide baseline on entry and restored on exit; `context_lock` is the
//! protocol by which one thread at a time holds an engine instance.
pub mod pku;
pub mod context_lock;
