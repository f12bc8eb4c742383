//! Scout: the state, decisions and view model of a keyboard-driven terminal
//! HTTP client. Terminal drawing, keyboard polling and the network round trip
//! live in the program around this library.

pub mod app;
pub mod event;
pub mod http;
pub mod laws;
pub mod request;
pub mod text;
pub mod ui;
pub mod widgets;
