//! The terminal UI's state and every decision it makes on a key press.
//! Drawing, the terminal itself and the side effects a key asks for
//! (saving files, scanning Proton builds, launching games) are carried out
//! by the binary, which hands each outcome back to the matching function
//! here.
pub mod app;
pub mod running;
pub mod library;
pub mod profile_editor;
pub mod config;
pub mod keys;
pub mod ui;
pub mod gamepad;
pub mod values;
