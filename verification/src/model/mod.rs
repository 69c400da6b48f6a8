//! Mathematical models of what the operations act on, and what is proved of
//! the library's decisions against them.
pub mod repository;
pub mod resolution;
pub mod walk;
