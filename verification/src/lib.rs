//! The creation of a Win32 window with an OpenGL context, as a conversation with the system.
//!
//! Creating such a window takes some thirty calls into the system and the driver, each of which
//! depends on what the ones before it gave back. This crate decides; it makes none of the calls.
//! [`window_thread::new_window`] begins the conversation, `action` tells the next call, and
//! `step` takes in what the call gave back.

pub mod arb_formats;
pub mod constants;
pub mod context;
pub mod geometry;
pub mod init;
pub mod laws;
pub mod native_formats;
pub mod offers;
pub mod pixel_format;
pub mod protocol;
pub mod text;
pub mod trace;
pub mod types;
pub mod window_thread;
