//! Ownership discipline for handles to resources that a platform's windowing and
//! graphics subsystem allocates and frees.
//!
//! The library never calls the platform itself. It decides which native calls are
//! owed (a release on scope exit, a reselection that restores a drawing surface)
//! and records them, in order, in a [`ownership::Ledger`]; the program around it
//! performs them.

pub mod handle;
pub mod convert;
pub mod ownership;
pub mod color;
pub mod geometry;
pub mod wide;
pub mod object;
pub mod device_context;
pub mod paint;
pub mod window;
pub mod menu;
pub mod message;
pub mod dialog;
pub mod draw;

pub use convert::{
    booleanize, clamp_i32_to_positive_i32, clamp_isize_to_i32, clamp_isize_to_positive_i32,
    clamp_usize_to_positive_i32, clamp_usize_to_positive_isize, revert_booleanize,
};
