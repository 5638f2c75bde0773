//! The editing of one parameter: a text buffer, the text last committed, a
//! mode (browsing or editing) and the last error, with the transitions
//! between them.

use vstd::prelude::*;
use vstd::string::*;
use crossterm::event::{Event as TerminalEvent, KeyCode, KeyEvent, KeyModifiers};
use tui_input::backend::crossterm::EventHandler;
use tui_input::Input;
use crate::context::{Parameter, TuiContext, UpdateError};
use crate::event::{Action, Key};
use crate::fixedpt::{spec_parse, spec_to_text, Fixedpt, ParseError};
use crate::params::Param;
use crate::store::WriteReply;

verus! {

/// `tui_input::Input`, the edit buffer. Nothing inside it is visible here;
/// what it holds goes by the two names below.
#[verifier::external_type_specification]
#[verifier::external_body]
pub struct ExInput(tui_input::Input);

/// The text that an edit buffer holds.
pub uninterp spec fn buffer_text(input: tui_input::Input) -> Seq<char>;

/// The number of characters before an edit buffer's cursor.
pub uninterp spec fn buffer_cursor(input: tui_input::Input) -> nat;

/// The text and the cursor that an edit buffer has after a key was pressed,
/// as `tui_input` makes them from the text and the cursor before.
pub uninterp spec fn typed(text: Seq<char>, cursor: nat, key: Key) -> (Seq<char>, nat);

/// `tui_input::Input::new` makes a buffer that holds the given text, with
/// the cursor after its last character.
pub assume_specification[ tui_input::Input::new ](value: String) -> (r: tui_input::Input)
    ensures
        buffer_text(r) == value@,
        buffer_cursor(r) == value@.len(),
;

/// `tui_input::Input::value` is the text that the buffer holds.
pub assume_specification<'a>[ tui_input::Input::value ](input: &'a tui_input::Input) -> (r: &'a str)
    ensures
        r@ == buffer_text(*input),
;

/// Hands a key press without modifiers to `tui_input`'s `handle_event`. The
/// text and the cursor afterwards depend on nothing but the text and the
/// cursor before and the key; what they are is left to `tui_input`.
#[verifier::external_body]
fn press(input: &mut Input, key: Key)
    ensures
        buffer_text(*final(input)) == typed(
            buffer_text(*old(input)),
            buffer_cursor(*old(input)),
            key,
        ).0,
        buffer_cursor(*final(input)) == typed(
            buffer_text(*old(input)),
            buffer_cursor(*old(input)),
            key,
        ).1,
{
    let code = match key {
        Key::Char(c) => KeyCode::Char(c),
        Key::Enter => KeyCode::Enter,
        Key::Esc => KeyCode::Esc,
        Key::Backspace => KeyCode::Backspace,
        Key::Delete => KeyCode::Delete,
        Key::Left => KeyCode::Left,
        Key::Right => KeyCode::Right,
        Key::Up => KeyCode::Up,
        Key::Down => KeyCode::Down,
        Key::Home => KeyCode::Home,
        Key::End => KeyCode::End,
    };
    input.handle_event(&TerminalEvent::Key(KeyEvent::new(code, KeyModifiers::NONE)));
}

/// Whether a parameter is only shown or is being edited.
#[derive(Debug, Clone, Copy, PartialEq, Eq, Structural)]
pub enum InputMode {
    Normal,
    Editing,
}

/// Why a commit did not go through.
#[derive(Debug, Clone, Copy, PartialEq, Eq, Structural)]
pub enum CommitError {
    /// The buffer does not hold the text of a number.
    Parse(ParseError),
    /// The number may not become the parameter's value.
    Update(UpdateError),
}

impl CommitError {
    /// The text of the error's message.
    pub open spec fn spec_message(self) -> Seq<char> {
        match self {
            CommitError::Parse(e) => e.spec_message(),
            CommitError::Update(e) => e.spec_message(),
        }
    }

    /// The short text shown next to the field that was edited.
    pub fn message(self) -> (r: &'static str)
        ensures
            r@ == self.spec_message(),
    {
        match self {
            CommitError::Parse(e) => e.message(),
            CommitError::Update(e) => e.message(),
        }
    }
}

/// The editing state of one parameter.
#[derive(Debug)]
pub struct ParameterInput {
    pub param: Param,
    /// The text last committed.
    pub value: String,
    /// The edit buffer.
    pub input: Input,
    pub input_mode: InputMode,
    /// The message of the last commit that failed, until one succeeds.
    pub error: Option<String>,
}

impl ParameterInput {
    /// The text in the edit buffer.
    pub open spec fn buffer(self) -> Seq<char> {
        buffer_text(self.input)
    }

    /// The text of the error that is shown, if one is.
    pub open spec fn error_text(self) -> Option<Seq<char>> {
        match self.error {
            Some(m) => Some(m@),
            None => None,
        }
    }

    /// Whether the buffer holds the text that `before` had committed, with
    /// the cursor at its end.
    pub open spec fn rolled_back_from(self, before: ParameterInput) -> bool {
        self.buffer() == before.value@ && buffer_cursor(self.input) == before.value@.len()
    }

    /// While a parameter is only shown, its buffer holds the committed text.
    pub open spec fn wf(self) -> bool {
        self.input_mode == InputMode::Normal ==> self.buffer() == self.value@
    }

    /// Whether the field is being edited.
    pub open spec fn spec_is_editing(&self) -> bool {
        self.input_mode == InputMode::Editing
    }

    /// What the buffer would commit under `ctx`: the number it holds, if it
    /// is one and may become the parameter's value.
    pub open spec fn spec_commit_check(self, ctx: TuiContext) -> Result<Fixedpt, CommitError> {
        match spec_parse(self.buffer()) {
            Err(e) => Err(CommitError::Parse(e)),
            Ok(v) => match ctx.spec_check_update(self.param, v) {
                Err(e) => Err(CommitError::Update(e)),
                Ok(()) => Ok(v),
            },
        }
    }

    /// A field that shows `text` as the committed text of `param`.
    pub fn from_text(param: Param, text: &str) -> (r: Self)
        ensures
            r.param == param,
            r.value@ == text@,
            r.buffer() == text@,
            buffer_cursor(r.input) == text@.len(),
            r.input_mode == InputMode::Normal,
            r.error is None,
            r.wf(),
    {
        Self {
            param,
            value: String::from_str(text),
            input: Input::new(String::from_str(text)),
            input_mode: InputMode::Normal,
            error: None,
        }
    }

    /// A field that shows the parameter's value.
    pub fn new(param: &Parameter) -> (r: Self)
        ensures
            r.param == param.tag,
            r.value@ == spec_to_text(param.value),
            r.buffer() == spec_to_text(param.value),
            buffer_cursor(r.input) == spec_to_text(param.value).len(),
            r.input_mode == InputMode::Normal,
            r.error is None,
            r.wf(),
    {
        let text = param.value.to_text();
        Self::from_text(param.tag, text.as_str())
    }

    /// Whether the field is well formed.
    pub fn is_well_formed(&self) -> (r: bool)
        ensures
            r == self.wf(),
    {
        match self.input_mode {
            InputMode::Editing => true,
            InputMode::Normal => String::from_str(self.input.value()) == self.value,
        }
    }

    #[verifier::when_used_as_spec(spec_is_editing)]
    pub fn is_editing(&self) -> (r: bool)
        ensures
            r == self.spec_is_editing(),
    {
        match self.input_mode {
            InputMode::Editing => true,
            InputMode::Normal => false,
        }
    }

    /// Puts the committed text back into the buffer, with the cursor at its end.
    pub fn reset(&mut self)
        ensures
            final(self).buffer() == old(self).value@,
            buffer_cursor(final(self).input) == old(self).value@.len(),
            final(self).param == old(self).param,
            final(self).value == old(self).value,
            final(self).input_mode == old(self).input_mode,
            final(self).error == old(self).error,
    {
        self.input = Input::new(self.value.clone());
    }

    /// Gives up the edit: the buffer holds the committed text again and the
    /// field is only shown. The error stays as it is.
    pub fn cancel(&mut self)
        ensures
            final(self).input_mode == InputMode::Normal,
            final(self).rolled_back_from(*old(self)),
            final(self).param == old(self).param,
            final(self).value == old(self).value,
            final(self).error == old(self).error,
            final(self).wf(),
    {
        self.input_mode = InputMode::Normal;
        self.reset();
    }

    /// Ends an edit that failed: the buffer holds the committed text again,
    /// the field is only shown, and the error's message is kept for display.
    fn fail(&mut self, e: CommitError)
        ensures
            final(self).input_mode == InputMode::Normal,
            final(self).rolled_back_from(*old(self)),
            final(self).param == old(self).param,
            final(self).value == old(self).value,
            final(self).error_text() == Some(e.spec_message()),
            final(self).wf(),
    {
        self.input_mode = InputMode::Normal;
        self.reset();
        self.error = Some(String::from_str(e.message()));
    }

    /// Reads the buffer as a number and decides whether it may become the
    /// parameter's value under `ctx`.
    pub fn commit_check(&self, ctx: &TuiContext) -> (r: Result<Fixedpt, CommitError>)
        ensures
            r == self.spec_commit_check(*ctx),
    {
        match Fixedpt::from_str(self.input.value()) {
            Err(e) => Err(CommitError::Parse(e)),
            Ok(v) => match ctx.check_update(self.param, v) {
                Err(e) => Err(CommitError::Update(e)),
                Ok(_) => Ok(v),
            },
        }
    }

    /// The first half of a commit. Where the buffer holds a number that may
    /// become the parameter's value, the field stays as it is and the result
    /// is the write to ask of the store. Otherwise the edit fails here: the
    /// buffer goes back to the committed text, the field is only shown, the
    /// error is kept, and nothing is asked of the store.
    pub fn begin_commit(&mut self, ctx: &TuiContext) -> (r: Option<Action>)
        ensures
            final(self).param == old(self).param,
            final(self).value == old(self).value,
            match old(self).spec_commit_check(*ctx) {
                Ok(v) => r == Some(Action::SetParam(old(self).param, v)) && *final(self) == *old(
                    self,
                ),
                Err(e) => r is None && final(self).input_mode == InputMode::Normal
                    && final(self).rolled_back_from(*old(self)) && final(self).error_text()
                    == Some(e.spec_message()),
            },
            old(self).wf() ==> final(self).wf(),
    {
        match self.commit_check(ctx) {
            Ok(v) => Some(Action::SetParam(self.param, v)),
            Err(e) => {
                self.fail(e);
                None
            },
        }
    }

    /// What the second half of a commit makes of a field and of the context.
    pub open spec fn spec_commit_end(
        before: ParameterInput,
        ctx_before: TuiContext,
        value: Fixedpt,
        reply: WriteReply,
        after: ParameterInput,
        ctx_after: TuiContext,
        r: Result<(), UpdateError>,
    ) -> bool {
        &&& r == ctx_before.spec_update_outcome(before.param, value, reply)
        &&& ctx_after.current_mode == ctx_before.current_mode
        &&& after.param == before.param
        &&& after.input_mode == InputMode::Normal
        &&& match r {
            Ok(()) => {
                &&& ctx_after.parameters@ == ctx_before.parameters@.update(
                    ctx_before.spec_index(before.param),
                    Parameter { tag: before.param, value },
                )
                &&& after.value@ == before.buffer()
                &&& after.input == before.input
                &&& after.error is None
            },
            Err(e) => {
                &&& ctx_after.parameters@ == ctx_before.parameters@
                &&& after.value == before.value
                &&& after.rolled_back_from(before)
                &&& after.error_text() == Some(e.spec_message())
            },
        }
    }

    /// The second half of a commit, after the store has answered the write
    /// of `value`. Where the context takes the update, the text in the
    /// buffer becomes the committed text and the error is cleared. Otherwise
    /// the buffer goes back to the committed text and the error is kept.
    /// Either way the field is only shown afterwards.
    pub fn update_value(&mut self, ctx: &mut TuiContext, value: Fixedpt, reply: WriteReply) -> (r:
        Result<(), UpdateError>)
        ensures
            ParameterInput::spec_commit_end(
                *old(self),
                *old(ctx),
                value,
                reply,
                *final(self),
                *final(ctx),
                r,
            ),
            final(self).wf(),
    {
        match ctx.update_param_value(self.param, value, reply) {
            Ok(()) => {
                self.value = String::from_str(self.input.value());
                self.error = None;
                self.input_mode = InputMode::Normal;
                Ok(())
            },
            Err(e) => {
                self.fail(CommitError::Update(e));
                Err(e)
            },
        }
    }

    /// One step of the field's state machine, from `before` to `after` with
    /// the action `r` asked of the store. While the field is only shown, `i`
    /// starts an edit and every other key is ignored. While it is edited,
    /// Enter begins a commit, Esc gives the edit up, and every other key goes
    /// to the buffer.
    pub open spec fn spec_step(
        before: ParameterInput,
        key: Key,
        ctx: TuiContext,
        after: ParameterInput,
        r: Option<Action>,
    ) -> bool {
        &&& after.param == before.param
        &&& after.value == before.value
        &&& match (before.input_mode, key) {
            (InputMode::Normal, Key::Char('i')) => {
                &&& r is None
                &&& after.input_mode == InputMode::Editing
                &&& after.input == before.input
                &&& after.error == before.error
            },
            (InputMode::Normal, _) => r is None && after == before,
            (InputMode::Editing, Key::Enter) => match before.spec_commit_check(ctx) {
                Ok(v) => r == Some(Action::SetParam(before.param, v)) && after == before,
                Err(e) => r is None && after.input_mode == InputMode::Normal
                    && after.rolled_back_from(before) && after.error_text() == Some(
                    e.spec_message(),
                ),
            },
            (InputMode::Editing, Key::Esc) => {
                &&& r is None
                &&& after.input_mode == InputMode::Normal
                &&& after.rolled_back_from(before)
                &&& after.error == before.error
            },
            (InputMode::Editing, _) => {
                &&& r is None
                &&& after.input_mode == InputMode::Editing
                &&& after.error == before.error
                &&& after.buffer() == typed(before.buffer(), buffer_cursor(before.input), key).0
                &&& buffer_cursor(after.input) == typed(
                    before.buffer(),
                    buffer_cursor(before.input),
                    key,
                ).1
            },
        }
    }

    /// Takes one key.
    pub fn handle_event(&mut self, key: Key, ctx: &TuiContext) -> (r: Option<Action>)
        ensures
            ParameterInput::spec_step(*old(self), key, *ctx, *final(self), r),
            old(self).wf() ==> final(self).wf(),
    {
        match self.input_mode {
            InputMode::Normal => {
                match key {
                    Key::Char(c) => {
                        if c == 'i' {
                            self.input_mode = InputMode::Editing;
                        }
                    },
                    _ => {},
                }
                None
            },
            InputMode::Editing => match key {
                Key::Enter => self.begin_commit(ctx),
                Key::Esc => {
                    self.cancel();
                    None
                },
                _ => {
                    press(&mut self.input, key);
                    None
                },
            },
        }
    }

    /// Shows the live value of the parameter again, unless the field is
    /// being edited or the context does not track the parameter.
    pub fn refresh(&mut self, ctx: &TuiContext)
        ensures
            ParameterInput::spec_refreshed(*old(self), *ctx, *final(self)),
            old(self).wf() ==> final(self).wf(),
    {
        if !self.is_editing() {
            match ctx.parameter(self.param) {
                Some(p) => {
                    self.value = p.value.to_text();
                    self.reset();
                },
                None => {},
            }
        }
    }

    /// What `refresh` makes of a field.
    pub open spec fn spec_refreshed(before: ParameterInput, ctx: TuiContext, after: ParameterInput) -> bool {
        if !before.spec_is_editing() && ctx.spec_tracks(before.param) {
            &&& after.param == before.param
            &&& after.input_mode == InputMode::Normal
            &&& after.error == before.error
            &&& after.value@ == spec_to_text(ctx.spec_value(before.param))
            &&& after.rolled_back_from(after)
        } else {
            after == before
        }
    }
}

} // verus!
