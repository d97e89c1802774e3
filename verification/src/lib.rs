//! Decision logic of the Amica desktop shell.
//!
//! The shell itself only talks to the window system: it shows a tray icon with
//! a short menu, reacts to clicks on it, and swaps the splash screen for the
//! main window once the application has loaded. What it decides on the way is
//! collected here as pure functions on plain values: the program around them
//! sends each request to the window system and hands the answer back.

pub mod splash;
pub mod text;
pub mod tray;
