//! A keyboard-driven, full-screen terminal portfolio viewer.
//!
//! This crate holds the verified core of the application: the page
//! enumeration and content provider, the prefix-based markup classifier,
//! the header and navigation-bar composition, the scroll/viewport layout
//! engine, and the input-driven state machine. Everything here is pure
//! logic on plain values; the terminal I/O that surrounds it lives in the
//! binary built on top of this library.

pub mod content;
pub mod footer;
pub mod handler;
pub mod header;
pub mod layout;
pub mod markup;

pub use handler::Page;
pub use handler::UIState;
