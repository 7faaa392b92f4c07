//! Interactive and batch search over a shell history store.
pub mod cmd;
pub mod filter;
pub mod format;
pub mod render;
pub mod session;
