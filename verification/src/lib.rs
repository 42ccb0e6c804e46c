//! Finding the size of the terminal of the current process, of one of its
//! parents, or of another process.
pub mod size;
pub mod text;
pub mod unix_impl;
pub mod unix;
pub mod windows;
