//! Per-player creative-camera state: one record per identity holding an
//! enabled flag and a 3D pose, kept in a keyed table and mutated through
//! three operations (create, set-enabled, move), each an atomic unit of
//! work against the table.

pub mod laws;
pub mod ops;
pub mod table;
pub mod types;
