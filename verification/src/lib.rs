//! Portable atomics: memory orderings, natural alignment, architecture
//! atomic cells, a lock-based fallback and a spin lock.
#![allow(non_camel_case_types)]

pub mod align;
pub mod arch;
pub mod arith;
pub mod export;
pub mod fp;
pub mod locking;
pub mod ordering;
pub mod os_prims;
pub mod spin;
