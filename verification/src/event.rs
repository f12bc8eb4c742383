//! The events that drive the application: key presses and finished HTTP
//! round trips.

use vstd::prelude::*;
use crate::request::{Response, ResponseView};

verus! {

/// The key that was pressed.
#[derive(Debug, Clone, Copy, PartialEq, Eq, Structural)]
pub enum KeyCode {
    Char(char),
    Tab,
    Enter,
    Esc,
    Backspace,
    Delete,
    Left,
    Right,
    Up,
    Down,
    /// Any key the application has no binding for.
    Other,
}

/// A key press: the key and whether Control was held.
#[derive(Debug, Clone, Copy, PartialEq, Eq, Structural)]
pub struct KeyEvent {
    pub code: KeyCode,
    pub control: bool,
}

/// Something that happened and that the application reacts to.
#[derive(Debug)]
pub enum AppEvent {
    Key(KeyEvent),
    HttpResponse(Response),
}

/// The mathematical value of an [`AppEvent`].
pub enum AppEventView {
    Key(KeyEvent),
    HttpResponse(ResponseView),
}

impl View for AppEvent {
    type V = AppEventView;

    open spec fn view(&self) -> AppEventView {
        match self {
            AppEvent::Key(k) => AppEventView::Key(*k),
            AppEvent::HttpResponse(r) => AppEventView::HttpResponse(r@),
        }
    }
}

} // verus!
