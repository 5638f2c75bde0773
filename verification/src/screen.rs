//! One screen per curve mode: the fields of the mode's parameters, one of
//! which has the focus.

use vstd::prelude::*;
use crate::context::{TuiContext, UpdateError};
use crate::event::{Action, Key};
use crate::fixedpt::Fixedpt;
use crate::param_input::ParameterInput;
use crate::params::{AccelMode, Param};
use crate::store::WriteReply;

verus! {

/// The index after `i`, going round in `0..n`.
pub open spec fn next_index(i: int, n: int) -> int {
    if i + 1 >= n {
        0
    } else {
        i + 1
    }
}

/// The index before `i`, going round in `0..n`.
pub open spec fn previous_index(i: int, n: int) -> int {
    if i <= 0 {
        n - 1
    } else {
        i - 1
    }
}

/// Going round is counting modulo the length.
pub proof fn lemma_round_is_modulo(i: int, n: int)
    requires
        0 <= i < n,
    ensures
        next_index(i, n) == (i + 1) % n,
        previous_index(i, n) == (i + n - 1) % n,
{
    if i + 1 < n {
        vstd::arithmetic::div_mod::lemma_small_mod((i + 1) as nat, n as nat);
    } else {
        vstd::arithmetic::div_mod::lemma_mod_self_0(n);
    }
    if i == 0 {
        vstd::arithmetic::div_mod::lemma_small_mod((n - 1) as nat, n as nat);
    } else {
        vstd::arithmetic::div_mod::lemma_small_mod((i - 1) as nat, n as nat);
        vstd::arithmetic::div_mod::lemma_mod_add_multiples_vanish(i - 1, n);
    }
}

/// An index that goes round in `0..n`.
#[derive(Debug, Clone, Copy, PartialEq, Eq, Structural)]
pub struct CyclingIdx {
    pub idx: usize,
    pub n: usize,
}

impl CyclingIdx {
    /// The index is one of `0..n`.
    pub open spec fn wf(self) -> bool {
        self.idx < self.n
    }

    /// An index that goes round in `0..n` and starts at `idx`.
    pub fn new_starting_at(n: usize, idx: usize) -> (r: Self)
        requires
            idx < n,
        ensures
            r == (CyclingIdx { idx, n }),
            r.wf(),
    {
        Self { idx, n }
    }

    /// An index that goes round in `0..n` and starts at zero.
    pub fn new(n: usize) -> (r: Self)
        requires
            0 < n,
        ensures
            r == (CyclingIdx { idx: 0, n }),
            r.wf(),
    {
        Self::new_starting_at(n, 0)
    }

    /// Where the index stands.
    pub open spec fn spec_current(self) -> usize {
        self.idx
    }

    #[verifier::when_used_as_spec(spec_current)]
    pub fn current(self) -> (r: usize)
        ensures
            r == self.idx,
    {
        self.idx
    }

    /// The index after this one, going round.
    pub open spec fn spec_next(self) -> int {
        next_index(self.idx as int, self.n as int)
    }

    /// The index before this one, going round.
    pub open spec fn spec_previous(self) -> int {
        previous_index(self.idx as int, self.n as int)
    }

    /// Goes on by one, from the last index to the first.
    pub fn forward(&mut self)
        requires
            old(self).wf(),
        ensures
            final(self).n == old(self).n,
            final(self).idx == old(self).spec_next(),
            final(self).wf(),
    {
        if self.idx + 1 >= self.n {
            self.idx = 0;
        } else {
            self.idx = self.idx + 1;
        }
    }

    /// Goes back by one, from the first index to the last.
    pub fn back(&mut self)
        requires
            old(self).wf(),
        ensures
            final(self).n == old(self).n,
            final(self).idx == old(self).spec_previous(),
            final(self).wf(),
    {
        if self.idx == 0 {
            self.idx = self.n - 1;
        } else {
            self.idx = self.idx - 1;
        }
    }
}

/// The screen of one curve mode.
#[derive(Debug)]
pub struct Screen {
    pub accel_mode: AccelMode,
    pub param_inputs: Vec<ParameterInput>,
    /// The index of the field that has the focus.
    pub selected: usize,
}

impl Screen {
    /// The focus is on one of the fields, every field is well formed, and
    /// only the field with the focus can be in the middle of an edit.
    pub open spec fn wf(self) -> bool {
        &&& self.param_inputs@.len() == 0 ==> self.selected == 0
        &&& self.param_inputs@.len() > 0 ==> self.selected < self.param_inputs@.len()
        &&& forall|i: int|
            0 <= i < self.param_inputs@.len() ==> (#[trigger] self.param_inputs@[i]).wf()
        &&& forall|i: int|
            0 <= i < self.param_inputs@.len() && i != self.selected
                ==> !(#[trigger] self.param_inputs@[i]).spec_is_editing()
    }

    /// Whether one of the fields is in the middle of an edit.
    pub open spec fn spec_is_in_editing_mode(&self) -> bool {
        exists|i: int|
            0 <= i < self.param_inputs@.len() && (#[trigger] self.param_inputs@[i]).spec_is_editing()
    }

    /// A screen for `accel_mode` with the focus on its first field.
    pub fn new(accel_mode: AccelMode, param_inputs: Vec<ParameterInput>) -> (r: Self)
        ensures
            r.accel_mode == accel_mode,
            r.param_inputs == param_inputs,
            r.selected == 0,
    {
        Self { accel_mode, param_inputs, selected: 0 }
    }

    /// Whether the screen is well formed.
    pub fn is_well_formed(&self) -> (r: bool)
        ensures
            r == self.wf(),
    {
        let n = self.param_inputs.len();
        if n == 0 {
            return self.selected == 0;
        }
        if self.selected >= n {
            return false;
        }
        let mut i: usize = 0;
        while i < n
            invariant
                0 <= i <= n,
                n == self.param_inputs@.len(),
                forall|j: int| 0 <= j < i ==> (#[trigger] self.param_inputs@[j]).wf(),
                forall|j: int|
                    0 <= j < i && j != self.selected
                        ==> !(#[trigger] self.param_inputs@[j]).spec_is_editing(),
            decreases n - i,
        {
            if !self.param_inputs[i].is_well_formed() {
                return false;
            }
            if i != self.selected && self.param_inputs[i].is_editing() {
                return false;
            }
            i += 1;
        }
        true
    }

    #[verifier::when_used_as_spec(spec_is_in_editing_mode)]
    pub fn is_in_editing_mode(&self) -> (r: bool)
        ensures
            r == self.spec_is_in_editing_mode(),
    {
        let mut i: usize = 0;
        while i < self.param_inputs.len()
            invariant
                0 <= i <= self.param_inputs@.len(),
                forall|j: int| 0 <= j < i ==> !(#[trigger] self.param_inputs@[j]).spec_is_editing(),
            decreases self.param_inputs@.len() - i,
        {
            if self.param_inputs[i].is_editing() {
                return true;
            }
            i += 1;
        }
        false
    }

    /// One step of a screen, from `before` to `after` with the action `r`
    /// asked of the store. While no field is edited, Down and Up move the
    /// focus round the fields. Every other key, and every key during an edit,
    /// goes to the field with the focus. A screen without fields ignores all.
    pub open spec fn spec_step(
        before: Screen,
        key: Key,
        ctx: TuiContext,
        after: Screen,
        r: Option<Action>,
    ) -> bool {
        let n = before.param_inputs@.len() as int;
        &&& after.accel_mode == before.accel_mode
        &&& after.param_inputs@.len() == n
        &&& if n == 0 {
            r is None && after.param_inputs@ == before.param_inputs@ && after.selected
                == before.selected
        } else if !before.spec_is_in_editing_mode() && key == Key::Down {
            r is None && after.param_inputs@ == before.param_inputs@ && after.selected
                == next_index(before.selected as int, n)
        } else if !before.spec_is_in_editing_mode() && key == Key::Up {
            r is None && after.param_inputs@ == before.param_inputs@ && after.selected
                == previous_index(before.selected as int, n)
        } else {
            &&& after.selected == before.selected
            &&& forall|i: int|
                0 <= i < n && i != before.selected ==> #[trigger] after.param_inputs@[i]
                    == before.param_inputs@[i]
            &&& ParameterInput::spec_step(
                before.param_inputs@[before.selected as int],
                key,
                ctx,
                after.param_inputs@[before.selected as int],
                r,
            )
        }
    }

    /// Takes one key.
    pub fn handle_event(&mut self, key: Key, ctx: &TuiContext) -> (r: Option<Action>)
        requires
            old(self).wf(),
        ensures
            Screen::spec_step(*old(self), key, *ctx, *final(self), r),
            final(self).wf(),
    {
        let n = self.param_inputs.len();
        if n == 0 {
            return None;
        }
        if !self.is_in_editing_mode() {
            match key {
                Key::Down => {
                    self.selected = if self.selected + 1 >= n {
                        0
                    } else {
                        self.selected + 1
                    };
                    return None;
                },
                Key::Up => {
                    self.selected = if self.selected == 0 {
                        n - 1
                    } else {
                        self.selected - 1
                    };
                    return None;
                },
                _ => {},
            }
        }
        let i = self.selected;
        let r = self.param_inputs[i].handle_event(key, ctx);
        r
    }

    /// Whether the focus is on the field of `p`.
    pub open spec fn spec_holds_focus_on(&self, p: Param) -> bool {
        self.param_inputs@.len() > 0 && self.param_inputs@[self.selected as int].param == p
    }

    #[verifier::when_used_as_spec(spec_holds_focus_on)]
    pub fn holds_focus_on(&self, p: Param) -> (r: bool)
        requires
            self.wf(),
        ensures
            r == self.spec_holds_focus_on(p),
    {
        self.param_inputs.len() > 0 && self.param_inputs[self.selected].param == p
    }

    /// What the end of a commit makes of a screen whose focus is on the
    /// field of the parameter: it is the end of that field's commit, and the
    /// other fields stay as they are.
    pub open spec fn spec_commit_end(
        before: Screen,
        ctx_before: TuiContext,
        value: Fixedpt,
        reply: WriteReply,
        after: Screen,
        ctx_after: TuiContext,
        r: Result<(), UpdateError>,
    ) -> bool {
        &&& after.accel_mode == before.accel_mode
        &&& after.selected == before.selected
        &&& after.param_inputs@.len() == before.param_inputs@.len()
        &&& forall|i: int|
            0 <= i < before.param_inputs@.len() && i != before.selected
                ==> #[trigger] after.param_inputs@[i] == before.param_inputs@[i]
        &&& ParameterInput::spec_commit_end(
            before.param_inputs@[before.selected as int],
            ctx_before,
            value,
            reply,
            after.param_inputs@[before.selected as int],
            ctx_after,
            r,
        )
    }

    /// Ends the commit of the field with the focus.
    pub fn update_value(&mut self, ctx: &mut TuiContext, value: Fixedpt, reply: WriteReply) -> (r:
        Result<(), UpdateError>)
        requires
            old(self).wf(),
            old(self).param_inputs@.len() > 0,
        ensures
            Screen::spec_commit_end(
                *old(self),
                *old(ctx),
                value,
                reply,
                *final(self),
                *final(ctx),
                r,
            ),
            final(self).wf(),
    {
        let i = self.selected;
        let r = self.param_inputs[i].update_value(ctx, value, reply);
        r
    }

    /// What `refresh` makes of a screen.
    pub open spec fn spec_refreshed(before: Screen, ctx: TuiContext, after: Screen) -> bool {
        &&& after.accel_mode == before.accel_mode
        &&& after.selected == before.selected
        &&& after.param_inputs@.len() == before.param_inputs@.len()
        &&& forall|i: int|
            0 <= i < before.param_inputs@.len() ==> ParameterInput::spec_refreshed(
                before.param_inputs@[i],
                ctx,
                #[trigger] after.param_inputs@[i],
            )
    }

    /// Shows the live values again in every field that is not being edited.
    pub fn refresh(&mut self, ctx: &TuiContext)
        requires
            old(self).wf(),
        ensures
            final(self).wf(),
            Screen::spec_refreshed(*old(self), *ctx, *final(self)),
    {
        let n = self.param_inputs.len();
        let mut i: usize = 0;
        while i < n
            invariant
                0 <= i <= n,
                n == self.param_inputs@.len(),
                n == old(self).param_inputs@.len(),
                self.accel_mode == old(self).accel_mode,
                self.selected == old(self).selected,
                self.wf(),
                forall|j: int|
                    0 <= j < i ==> ParameterInput::spec_refreshed(
                        old(self).param_inputs@[j],
                        *ctx,
                        #[trigger] self.param_inputs@[j],
                    ),
                forall|j: int|
                    i <= j < n ==> #[trigger] self.param_inputs@[j] == old(self).param_inputs@[j],
            decreases n - i,
        {
            self.param_inputs[i].refresh(ctx);
            i += 1;
        }
    }

    /// A screen that is refreshed has an edit going on exactly where it had
    /// one before.
    pub proof fn lemma_refresh_keeps_idle(before: Screen, ctx: TuiContext, after: Screen)
        requires
            Screen::spec_refreshed(before, ctx, after),
        ensures
            after.spec_is_in_editing_mode() == before.spec_is_in_editing_mode(),
    {
        if before.spec_is_in_editing_mode() {
            let i = choose|i: int|
                0 <= i < before.param_inputs@.len() && (
                #[trigger] before.param_inputs@[i]).spec_is_editing();
            assert(ParameterInput::spec_refreshed(
                before.param_inputs@[i],
                ctx,
                after.param_inputs@[i],
            ));
            assert(after.param_inputs@[i].spec_is_editing());
        }
        if after.spec_is_in_editing_mode() {
            let i = choose|i: int|
                0 <= i < after.param_inputs@.len() && (
                #[trigger] after.param_inputs@[i]).spec_is_editing();
            assert(ParameterInput::spec_refreshed(
                before.param_inputs@[i],
                ctx,
                after.param_inputs@[i],
            ));
            assert(before.param_inputs@[i].spec_is_editing());
        }
    }

    /// A well-formed screen whose field with the focus is only shown has no
    /// edit going on.
    pub proof fn lemma_commit_end_keeps_idle(screen: Screen)
        requires
            screen.wf(),
            screen.param_inputs@.len() > 0,
            !screen.param_inputs@[screen.selected as int].spec_is_editing(),
        ensures
            !screen.spec_is_in_editing_mode(),
    {
    }
}

} // verus!
