//! Key presses as the pages read them: which key, whether it went down, up or repeats,
//! and whether Control was the only modifier held.
use vstd::prelude::*;

verus! {

#[derive(Debug, Clone, Copy, PartialEq, Eq)]
pub enum KeyCode {
    Char(char),
    Up,
    Down,
    Left,
    Right,
    Enter,
    Esc,
    /// Any key the pages do not use.
    Other,
}

#[derive(Debug, Clone, Copy, PartialEq, Eq)]
pub enum KeyEventKind {
    Press,
    Repeat,
    Release,
}

#[derive(Debug, Clone, Copy, PartialEq, Eq)]
pub struct KeyEvent {
    pub code: KeyCode,
    pub kind: KeyEventKind,
    /// Control, and no other modifier, was held.
    pub control_only: bool,
}

impl KeyEvent {
    pub fn is_press(&self) -> (b: bool)
        ensures
            b == (self.kind == KeyEventKind::Press),
    {
        matches!(self.kind, KeyEventKind::Press)
    }
}

impl KeyCode {
    pub fn is_char(&self, c: char) -> (b: bool)
        ensures
            b == (*self == KeyCode::Char(c)),
    {
        match self {
            KeyCode::Char(d) => *d == c,
            _ => false,
        }
    }
}

} // verus!
