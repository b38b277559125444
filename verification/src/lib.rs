//! Session controller for a bare-repository-plus-worktrees layout: the
//! in-memory worktree inventory with its derived status, the sort, filter and
//! selection model, the modal interaction state machine, and the planning and
//! validation of the external version-control commands it sequences.

pub mod config;
pub mod controller;
pub mod git;
pub mod ops;
pub mod session;
pub mod sort;
pub mod status;
pub mod text;
pub mod types;

pub use types::SortMode;
pub use types::WorktreeStatus;
