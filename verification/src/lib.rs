//! `red`: a minimal terminal text viewer.
//!
//! The library holds the verified core: the text [`buffer::Buffer`], the
//! viewport coordinate model and rendering pipeline of [`view::View`], the
//! terminal session lifecycle of [`session::Session`], and the event loop of
//! [`editor::Editor`]. Terminal input and output go through a small set of
//! trusted wrappers in [`term`].

pub mod buffer;
pub mod errors;
pub mod events;
pub mod editor;
pub mod frame;
pub mod laws;
pub mod session;
pub mod term;
pub mod view;
