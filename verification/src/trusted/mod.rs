//! What the library takes on trust from the code it calls.
pub mod git;
pub mod text;
pub mod url;
