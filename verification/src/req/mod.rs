//! The client side.
pub mod block;
