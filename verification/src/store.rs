//! The boundary to the parameter store. The store itself is outside: whoever
//! drives the library performs the reads and writes. This module says what to
//! write, and turns what was read into values.

use vstd::prelude::*;
use vstd::string::*;
use crate::fixedpt::{Fixedpt, spec_parse, spec_to_text, digit_char};
use crate::params::{AccelMode, Param};

verus! {

/// A write that the store is asked to perform: the text to keep under the
/// parameter's name.
#[derive(Debug, PartialEq, Eq)]
pub struct StoreWrite {
    pub param: Param,
    pub text: String,
}

/// What the store answered to a read: the text it keeps under the
/// parameter's name, or `None` where it keeps nothing there.
#[derive(Debug, PartialEq, Eq)]
pub struct StoreReply {
    pub param: Param,
    pub text: Option<String>,
}

/// What the store answered to a write.
#[derive(Debug, Clone, Copy, PartialEq, Eq, Structural)]
pub enum WriteReply {
    Done,
    Rejected,
}

/// A failure of the store, with the parameter it concerns.
#[derive(Debug, Clone, Copy, PartialEq, Eq, Structural)]
pub enum StoreError {
    /// The store keeps nothing under the parameter's name.
    NotFound(Param),
    /// The text that the store keeps is not the text of a value.
    Unparsable(Param),
    /// The store refused the write.
    Rejected(Param),
}

impl StoreError {
    /// The text of the error's message.
    pub open spec fn spec_message(self) -> Seq<char> {
        match self {
            StoreError::NotFound(_) => "the parameter has no stored value"@,
            StoreError::Unparsable(_) => "the stored value cannot be read"@,
            StoreError::Rejected(_) => "the value could not be stored"@,
        }
    }

    /// The short text shown next to the field that was edited.
    pub fn message(self) -> (r: &'static str)
        ensures
            r@ == self.spec_message(),
    {
        match self {
            StoreError::NotFound(_) => "the parameter has no stored value",
            StoreError::Unparsable(_) => "the stored value cannot be read",
            StoreError::Rejected(_) => "the value could not be stored",
        }
    }

    /// The parameter that the failure concerns.
    pub open spec fn spec_param(self) -> Param {
        match self {
            StoreError::NotFound(p) => p,
            StoreError::Unparsable(p) => p,
            StoreError::Rejected(p) => p,
        }
    }

    /// The parameter that the failure concerns.
    pub fn param(self) -> (r: Param)
        ensures
            r == self.spec_param(),
    {
        match self {
            StoreError::NotFound(p) => p,
            StoreError::Unparsable(p) => p,
            StoreError::Rejected(p) => p,
        }
    }
}

/// The text of the first answer for `p` at or after index `from`; `None`
/// where there is no such answer or it holds no text.
pub open spec fn stored_text_from(replies: Seq<StoreReply>, p: Param, from: int) -> Option<
    Seq<char>,
>
    decreases replies.len() - from,
{
    if from < 0 || from >= replies.len() {
        None
    } else if replies[from].param == p {
        match replies[from].text {
            Some(t) => Some(t@),
            None => None,
        }
    } else {
        stored_text_from(replies, p, from + 1)
    }
}

/// The text that the store keeps for `p`, going by the first answer for it.
pub open spec fn stored_text(replies: Seq<StoreReply>, p: Param) -> Option<Seq<char>> {
    stored_text_from(replies, p, 0)
}

/// The value that the answers give for `p`.
pub open spec fn spec_read(replies: Seq<StoreReply>, p: Param) -> Result<Fixedpt, StoreError> {
    match stored_text(replies, p) {
        None => Err(StoreError::NotFound(p)),
        Some(t) => match spec_parse(t) {
            Ok(v) => Ok(v),
            Err(_) => Err(StoreError::Unparsable(p)),
        },
    }
}

/// The mode that a text names: a single digit, the mode's ordinal.
pub open spec fn spec_parse_mode(t: Seq<char>) -> Option<AccelMode> {
    if t.len() == 1 && '0' <= t[0] && t[0] <= '3' {
        AccelMode::spec_from_ordinal((t[0] as int - 48) as u8)
    } else {
        None
    }
}

/// The active mode that the answers give.
pub open spec fn spec_read_mode(replies: Seq<StoreReply>) -> Result<AccelMode, StoreError> {
    match stored_text(replies, Param::Mode) {
        None => Err(StoreError::NotFound(Param::Mode)),
        Some(t) => match spec_parse_mode(t) {
            Some(m) => Ok(m),
            None => Err(StoreError::Unparsable(Param::Mode)),
        },
    }
}

/// The text that the answers hold for `p`.
pub fn find_text(replies: &Vec<StoreReply>, p: Param) -> (r: Option<&String>)
    ensures
        match r {
            Some(t) => stored_text(replies@, p) == Some(t@),
            None => stored_text(replies@, p) is None,
        },
{
    let mut i: usize = 0;
    while i < replies.len()
        invariant
            0 <= i <= replies.len(),
            stored_text(replies@, p) == stored_text_from(replies@, p, i as int),
        decreases replies.len() - i,
    {
        if replies[i].param == p {
            return match &replies[i].text {
                Some(t) => Some(t),
                None => None,
            };
        }
        i += 1;
    }
    None
}

/// Turns the store's answers into the value of `p`: `NotFound` where the
/// store keeps nothing for it, `Unparsable` where the text is no number.
pub fn read(replies: &Vec<StoreReply>, p: Param) -> (r: Result<Fixedpt, StoreError>)
    ensures
        r == spec_read(replies@, p),
{
    match find_text(replies, p) {
        None => Err(StoreError::NotFound(p)),
        Some(t) => match Fixedpt::from_str(t.as_str()) {
            Ok(v) => Ok(v),
            Err(_) => Err(StoreError::Unparsable(p)),
        },
    }
}

/// Reads a mode from the text of its ordinal.
pub fn parse_mode(t: &str) -> (r: Option<AccelMode>)
    ensures
        r == spec_parse_mode(t@),
{
    if !t.is_ascii() {
        return None;
    }
    proof {
        is_ascii_spec_bytes(t);
    }
    if t.as_bytes().len() != 1 {
        return None;
    }
    let b = t.get_ascii(0);
    assert('\0' <= t@[0] <= '\u{7f}');
    if 48 <= b && b <= 51 {
        AccelMode::from_ordinal(b - 48)
    } else {
        None
    }
}

/// Turns the store's answers into the active mode.
pub fn read_mode(replies: &Vec<StoreReply>) -> (r: Result<AccelMode, StoreError>)
    ensures
        r == spec_read_mode(replies@),
{
    match find_text(replies, Param::Mode) {
        None => Err(StoreError::NotFound(Param::Mode)),
        Some(t) => match parse_mode(t.as_str()) {
            Some(m) => Ok(m),
            None => Err(StoreError::Unparsable(Param::Mode)),
        },
    }
}

/// The write that stores `value` under `p`.
pub fn write_request(p: Param, value: Fixedpt) -> (r: StoreWrite)
    ensures
        r.param == p,
        r.text@ == spec_to_text(value),
{
    StoreWrite { param: p, text: value.to_text() }
}

/// The text of a mode's ordinal.
pub open spec fn spec_mode_text(mode: AccelMode) -> Seq<char> {
    seq![digit_char(mode.spec_ordinal() as nat)]
}

/// The write that makes `mode` the active mode in the store.
pub fn mode_write_request(mode: AccelMode) -> (r: StoreWrite)
    ensures
        r.param == Param::Mode,
        r.text@ == spec_mode_text(mode),
{
    let mut text = String::new();
    let c = match mode {
        AccelMode::Linear => '0',
        AccelMode::Classic => '1',
        AccelMode::Natural => '2',
        AccelMode::Synchronous => '3',
    };
    text.push(c);
    assert(text@ =~= spec_mode_text(mode));
    StoreWrite { param: Param::Mode, text }
}

/// The text that makes a mode active reads back as that mode.
pub proof fn lemma_mode_text_round_trip(mode: AccelMode)
    ensures
        spec_parse_mode(spec_mode_text(mode)) == Some(mode),
{
}

} // verus!
