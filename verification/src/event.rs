//! What comes in from the terminal, and what goes out to the store.

use vstd::prelude::*;
use crate::fixedpt::{Fixedpt, spec_to_text};
use crate::params::{AccelMode, Param};
use crate::store::{mode_write_request, write_request, spec_mode_text, StoreWrite};

verus! {

/// A key that was pressed, without modifiers.
#[derive(Debug, Clone, Copy, PartialEq, Eq, Structural)]
pub enum Key {
    Char(char),
    Enter,
    Esc,
    Backspace,
    Delete,
    Left,
    Right,
    Up,
    Down,
    Home,
    End,
}

/// Something that happened outside.
#[derive(Debug, Clone, Copy, PartialEq, Eq, Structural)]
pub enum Event {
    Key(Key),
    Tick,
}

/// Something that the session asks of the store. Whoever drives the session
/// performs the write and reports the store's answer back.
#[derive(Debug, Clone, Copy, PartialEq, Eq, Structural)]
pub enum Action {
    /// Make the mode the active one.
    SetMode(AccelMode),
    /// Keep the value under the parameter.
    SetParam(Param, Fixedpt),
}

impl Action {
    /// The text that the action puts into the store.
    pub open spec fn spec_text(self) -> Seq<char> {
        match self {
            Action::SetMode(mode) => spec_mode_text(mode),
            Action::SetParam(_, value) => spec_to_text(value),
        }
    }

    /// The name under which the action puts it.
    pub open spec fn spec_param(self) -> Param {
        match self {
            Action::SetMode(_) => Param::Mode,
            Action::SetParam(p, _) => p,
        }
    }

    /// The write that carries the action out.
    pub fn store_write(self) -> (r: StoreWrite)
        ensures
            r.param == self.spec_param(),
            r.text@ == self.spec_text(),
    {
        match self {
            Action::SetMode(mode) => mode_write_request(mode),
            Action::SetParam(p, value) => write_request(p, value),
        }
    }
}

} // verus!
