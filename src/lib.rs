//! Selection of remote compilers from a cached catalog, compile requests
//! against them, and rendering of their results as bounded chat messages.

pub mod catalog;
pub mod compiler;
pub mod text;
pub mod version;
