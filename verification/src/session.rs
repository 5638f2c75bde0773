//! The session: the context, one screen per selectable mode, and which of
//! the screens is shown. It takes events and says what to ask of the store;
//! it takes the store's answers and moves on.

use vstd::prelude::*;
use crate::context::{
    context_outcome,
    reset_outcome,
    spec_tracked,
    ContextRef,
    Parameter,
    TuiContext,
};
use crate::event::{Action, Event, Key};
use crate::fixedpt::spec_to_text;
use crate::param_input::{InputMode, ParameterInput};
use crate::params::{common_params, spec_common_params, AccelMode, Param};
use crate::screen::{CyclingIdx, Screen};
use crate::store::{StoreError, StoreReply, WriteReply};

verus! {

/// The least time between two ticks, in milliseconds.
pub const TICK_RATE_MS: u64 = 16;

/// The parameters, of the common ones and then of `params`, that `ctx` tracks.
pub open spec fn spec_shown(params: Seq<Param>, ctx: TuiContext) -> Seq<Param> {
    (spec_common_params() + params).filter(|p: Param| ctx.spec_tracks(p))
}

/// Whether `inputs` are the fields of `wanted`, in order, each showing the
/// live value of its parameter, with the cursor at its end, and none being
/// edited or in error.
pub open spec fn fresh_inputs(wanted: Seq<Param>, ctx: TuiContext, inputs: Seq<ParameterInput>) -> bool {
    &&& inputs.len() == wanted.len()
    &&& forall|i: int|
        0 <= i < wanted.len() ==> {
            &&& (#[trigger] inputs[i]).param == wanted[i]
            &&& inputs[i].value@ == spec_to_text(ctx.spec_value(wanted[i]))
            &&& inputs[i].rolled_back_from(inputs[i])
            &&& inputs[i].input_mode == InputMode::Normal
            &&& inputs[i].error is None
        }
}

/// The fields of a screen: one for each common parameter and then for each
/// of `params`, leaving out what the context does not track.
pub fn collect_inputs_for_params(params: &Vec<Param>, context: &TuiContext) -> (r: Vec<
    ParameterInput,
>)
    ensures
        fresh_inputs(spec_shown(params@, *context), *context, r@),
{
    let mut all = common_params();
    let mut k: usize = 0;
    while k < params.len()
        invariant
            0 <= k <= params@.len(),
            all@ == spec_common_params() + params@.take(k as int),
        decreases params@.len() - k,
    {
        all.push(params[k]);
        assert(params@.take(k + 1) =~= params@.take(k as int).push(params@[k as int]));
        assert(all@ =~= spec_common_params() + params@.take(k + 1));
        k += 1;
    }
    assert(params@.take(params@.len() as int) =~= params@);
    let ghost pred = |p: Param| context.spec_tracks(p);
    let ghost wanted = Seq::<Param>::empty();
    let mut out: Vec<ParameterInput> = Vec::new();
    let mut i: usize = 0;
    proof {
        reveal(Seq::filter);
        assert(all@.take(0) =~= Seq::<Param>::empty());
    }
    while i < all.len()
        invariant
            0 <= i <= all@.len(),
            pred == (|p: Param| context.spec_tracks(p)),
            wanted == all@.take(i as int).filter(pred),
            fresh_inputs(wanted, *context, out@),
        decreases all@.len() - i,
    {
        let p = all[i];
        proof {
            reveal(Seq::filter);
            assert(all@.take(i + 1).drop_last() =~= all@.take(i as int));
            assert(all@.take(i + 1).last() == p);
        }
        match context.parameter(p) {
            Some(param) => {
                let ghost shown = wanted;
                let ghost fields = out@;
                assert(context.spec_value(p) == param.value);
                out.push(ParameterInput::new(param));
                proof {
                    wanted = wanted.push(p);
                    assert forall|j: int| 0 <= j < wanted.len() implies {
                        &&& (#[trigger] out@[j]).param == wanted[j]
                        &&& out@[j].value@ == spec_to_text(context.spec_value(wanted[j]))
                        &&& out@[j].rolled_back_from(out@[j])
                        &&& out@[j].input_mode == InputMode::Normal
                        &&& out@[j].error is None
                    } by {
                        if j < shown.len() {
                            assert(out@[j] == fields[j]);
                            assert(wanted[j] == shown[j]);
                        }
                    }
                }
            },
            None => {},
        }
        i += 1;
    }
    assert(all@.take(all@.len() as int) =~= all@);
    out
}

/// The index of the first of `modes` at or after `from` that is `mode`, or
/// the number of modes where there is none.
pub open spec fn first_mode_from(modes: Seq<AccelMode>, mode: AccelMode, from: int) -> int
    decreases modes.len() - from,
{
    if from < 0 || from >= modes.len() {
        modes.len() as int
    } else if modes[from] == mode {
        from
    } else {
        first_mode_from(modes, mode, from + 1)
    }
}

/// The screen to start on: that of the active mode, or the first where the
/// active mode is not among the selectable ones.
pub open spec fn spec_start_index(modes: Seq<AccelMode>, mode: AccelMode) -> int {
    if first_mode_from(modes, mode, 0) < modes.len() {
        first_mode_from(modes, mode, 0)
    } else {
        0
    }
}

fn start_index(modes: &Vec<AccelMode>, mode: AccelMode) -> (r: usize)
    requires
        modes@.len() > 0,
    ensures
        r == spec_start_index(modes@, mode),
        r < modes@.len(),
{
    let mut i: usize = 0;
    while i < modes.len()
        invariant
            0 <= i <= modes@.len(),
            first_mode_from(modes@, mode, 0) == first_mode_from(modes@, mode, i as int),
        decreases modes@.len() - i,
    {
        if modes[i] == mode {
            return i;
        }
        i += 1;
    }
    0
}

/// The state of a session.
#[derive(Debug)]
pub struct App {
    pub context: ContextRef,
    pub screens: Vec<Screen>,
    pub screen_idx: CyclingIdx,
    pub is_running: bool,
    /// When the last tick was let through, in milliseconds.
    pub last_tick_at: u64,
}

impl App {
    /// There is a screen, the index is on one, every screen is well formed,
    /// and no screen but the one shown is in the middle of an edit.
    pub open spec fn wf(self) -> bool {
        &&& self.screens@.len() > 0
        &&& self.screen_idx.n == self.screens@.len()
        &&& self.screen_idx.wf()
        &&& forall|i: int| 0 <= i < self.screens@.len() ==> (#[trigger] self.screens@[i]).wf()
        &&& forall|i: int|
            0 <= i < self.screens@.len() && i != self.screen_idx.idx
                ==> !(#[trigger] self.screens@[i]).spec_is_in_editing_mode()
    }

    /// Whether the session is well formed.
    pub fn is_well_formed(&self) -> (r: bool)
        ensures
            r == self.wf(),
    {
        let n = self.screens.len();
        if n == 0 || self.screen_idx.n != n || self.screen_idx.idx >= n {
            return false;
        }
        let mut i: usize = 0;
        while i < n
            invariant
                0 <= i <= n,
                n == self.screens@.len(),
                forall|j: int| 0 <= j < i ==> (#[trigger] self.screens@[j]).wf(),
                forall|j: int|
                    0 <= j < i && j != self.screen_idx.idx
                        ==> !(#[trigger] self.screens@[j]).spec_is_in_editing_mode(),
            decreases n - i,
        {
            if !self.screens[i].is_well_formed() {
                return false;
            }
            if i != self.screen_idx.idx && self.screens[i].is_in_editing_mode() {
                return false;
            }
            i += 1;
        }
        true
    }

    /// The screen that is shown.
    pub open spec fn spec_current_screen(self) -> Screen {
        self.screens@[self.screen_idx.idx as int]
    }

    /// Whether the session may go to another screen: there is another, and
    /// no field of the one shown is being edited.
    pub open spec fn spec_can_switch_screens(&self) -> bool {
        self.screens@.len() > 1 && !self.spec_current_screen().spec_is_in_editing_mode()
    }

    /// What `new` gives for the selectable modes and the store's answers.
    pub open spec fn new_outcome(
        selectable: Seq<AccelMode>,
        replies: Seq<StoreReply>,
        now: u64,
        r: Result<App, StoreError>,
    ) -> bool {
        match r {
            Err(e) => context_outcome(selectable, replies, Err::<TuiContext, StoreError>(e)),
            Ok(app) => {
                &&& context_outcome(selectable, replies, Ok::<TuiContext, StoreError>(app.context@))
                &&& app.wf()
                &&& app.is_running
                &&& app.last_tick_at == now
                &&& app.screen_idx.idx == spec_start_index(selectable, app.context@.current_mode)
                &&& app.screens@.len() == selectable.len()
                &&& forall|i: int|
                    0 <= i < selectable.len() ==> {
                        &&& (#[trigger] app.screens@[i]).accel_mode == selectable[i]
                        &&& app.screens@[i].selected == 0
                        &&& fresh_inputs(
                            spec_shown(selectable[i].spec_own_params(), app.context@),
                            app.context@,
                            app.screens@[i].param_inputs@,
                        )
                    }
            },
        }
    }

    /// Starts a session from what the store answered: the context, one
    /// screen for each selectable mode, and the screen of the active mode
    /// shown. It fails where the context cannot be built.
    pub fn new(selectable: &Vec<AccelMode>, replies: &Vec<StoreReply>, now: u64) -> (r: Result<
        App,
        StoreError,
    >)
        requires
            selectable@.len() > 0,
        ensures
            App::new_outcome(selectable@, replies@, now, r),
    {
        let ctx = match TuiContext::new(selectable, replies) {
            Ok(ctx) => ctx,
            Err(e) => {
                return Err(e);
            },
        };
        let mut screens: Vec<Screen> = Vec::new();
        let mut i: usize = 0;
        while i < selectable.len()
            invariant
                0 <= i <= selectable@.len(),
                screens@.len() == i,
                forall|j: int|
                    0 <= j < i ==> {
                        &&& (#[trigger] screens@[j]).accel_mode == selectable@[j]
                        &&& screens@[j].selected == 0
                        &&& fresh_inputs(
                            spec_shown(selectable@[j].spec_own_params(), ctx),
                            ctx,
                            screens@[j].param_inputs@,
                        )
                    },
            decreases selectable@.len() - i,
        {
            let mode = selectable[i];
            let inputs = collect_inputs_for_params(&mode.own_params(), &ctx);
            screens.push(Screen::new(mode, inputs));
            i += 1;
        }
        let start = start_index(selectable, ctx.current_mode);
        let app = App {
            screen_idx: CyclingIdx::new_starting_at(screens.len(), start),
            screens,
            context: ContextRef::new(ctx),
            is_running: true,
            last_tick_at: now,
        };
        proof {
            assert forall|j: int| 0 <= j < app.screens@.len() implies (#[trigger] app.screens@[j]).wf()
                && !app.screens@[j].spec_is_in_editing_mode() by {
                let sc = app.screens@[j];
                assert(fresh_inputs(
                    spec_shown(selectable@[j].spec_own_params(), ctx),
                    ctx,
                    sc.param_inputs@,
                ));
                assert forall|k: int| 0 <= k < sc.param_inputs@.len() implies (
                #[trigger] sc.param_inputs@[k]).wf() && !sc.param_inputs@[k].spec_is_editing() by {
                    assert(sc.param_inputs@[k].input_mode == InputMode::Normal);
                }
            }
        }
        Ok(app)
    }

    /// What to read from the store before a session for `selectable` can
    /// start: the mode, then the parameters that its context will track.
    pub fn initial_reads(selectable: &Vec<AccelMode>) -> (r: Vec<Param>)
        ensures
            r@ == seq![Param::Mode] + spec_tracked(selectable@),
    {
        let mut wanted: Vec<Param> = Vec::new();
        wanted.push(Param::Mode);
        let mut params = TuiContext::tracked_params(selectable);
        let ghost rest = params@;
        wanted.append(&mut params);
        assert(wanted@ =~= seq![Param::Mode] + rest);
        wanted
    }

    /// What to read from the store between an action's write and `update`:
    /// after a change of mode that the store took, the tracked parameters of
    /// the new mode's group; in every other case nothing.
    pub fn reads_after(&self, action: Action, reply: WriteReply) -> (r: Vec<Param>)
        ensures
            r@ == match (action, reply) {
                (Action::SetMode(mode), WriteReply::Done) => self.context@.parameters@.map_values(
                    |p: Parameter| p.tag,
                ).filter(|p: Param| p.spec_belongs_to(mode)),
                _ => Seq::<Param>::empty(),
            },
    {
        match (action, reply) {
            (Action::SetMode(mode), WriteReply::Done) => self.context.get().params_to_reset(mode),
            _ => Vec::new(),
        }
    }

    /// Whether a tick is due at `now`: at least the tick rate has passed
    /// since the last one that was let through.
    pub fn tick(&mut self, now: u64) -> (r: bool)
        ensures
            r == (now - old(self).last_tick_at >= TICK_RATE_MS),
            final(self).last_tick_at == if r {
                now
            } else {
                old(self).last_tick_at
            },
            final(self).context == old(self).context,
            final(self).screens == old(self).screens,
            final(self).screen_idx == old(self).screen_idx,
            final(self).is_running == old(self).is_running,
    {
        let do_tick = now >= self.last_tick_at && now - self.last_tick_at >= TICK_RATE_MS;
        if do_tick {
            self.last_tick_at = now;
        }
        do_tick
    }

    /// The screen that is shown, to read.
    pub fn current_screen(&self) -> (r: &Screen)
        requires
            self.wf(),
        ensures
            *r == self.spec_current_screen(),
    {
        let screen_idx = self.screen_idx.current();
        &self.screens[screen_idx]
    }

    /// The screen that is shown, to change; nothing else of the session
    /// changes with it.
    pub fn current_screen_mut(&mut self) -> (r: &mut Screen)
        requires
            old(self).wf(),
        ensures
            *r == old(self).spec_current_screen(),
            final(self).screens@ == old(self).screens@.update(
                old(self).screen_idx.idx as int,
                *final(r),
            ),
            final(self).context == old(self).context,
            final(self).screen_idx == old(self).screen_idx,
            final(self).is_running == old(self).is_running,
            final(self).last_tick_at == old(self).last_tick_at,
    {
        let screen_idx = self.screen_idx.current();
        &mut self.screens[screen_idx]
    }

    #[verifier::when_used_as_spec(spec_can_switch_screens)]
    pub fn can_switch_screens(&self) -> (r: bool)
        requires
            self.wf(),
        ensures
            r == self.spec_can_switch_screens(),
    {
        self.screens.len() > 1 && !self.current_screen().is_in_editing_mode()
    }

    /// One step of the session on an event, from `before` to `after`, with
    /// the actions that it asks of the store. `q` ends the session, also in
    /// the middle of an edit. Right and Left go to the next and the previous
    /// screen and ask for that screen's mode, but only where the session may
    /// switch; where it may not, they go to the screen shown like every
    /// other key. A tick changes nothing.
    pub open spec fn spec_step(before: App, event: Event, after: App, emitted: Seq<Action>) -> bool {
        &&& after.context == before.context
        &&& after.last_tick_at == before.last_tick_at
        &&& after.screen_idx.n == before.screen_idx.n
        &&& after.screens@.len() == before.screens@.len()
        &&& match event {
            Event::Tick => {
                &&& emitted.len() == 0
                &&& after.is_running == before.is_running
                &&& after.screen_idx == before.screen_idx
                &&& after.screens == before.screens
            },
            Event::Key(Key::Char('q')) => {
                &&& emitted.len() == 0
                &&& !after.is_running
                &&& after.screen_idx == before.screen_idx
                &&& after.screens == before.screens
            },
            Event::Key(key) => {
                &&& after.is_running == before.is_running
                &&& if (key == Key::Right || key == Key::Left) && before.spec_can_switch_screens() {
                    &&& after.screens == before.screens
                    &&& after.screen_idx.idx == if key == Key::Right {
                        before.screen_idx.spec_next()
                    } else {
                        before.screen_idx.spec_previous()
                    }
                    &&& emitted == seq![
                        Action::SetMode(before.screens@[after.screen_idx.idx as int].accel_mode),
                    ]
                } else {
                    &&& after.screen_idx == before.screen_idx
                    &&& forall|i: int|
                        0 <= i < before.screens@.len() && i != before.screen_idx.idx
                            ==> #[trigger] after.screens@[i] == before.screens@[i]
                    &&& emitted.len() <= 1
                    &&& Screen::spec_step(
                        before.spec_current_screen(),
                        key,
                        before.context@,
                        after.spec_current_screen(),
                        if emitted.len() == 1 {
                            Some(emitted[0])
                        } else {
                            None
                        },
                    )
                }
            },
        }
    }

    /// Takes one event and appends to `actions` what it asks of the store.
    pub fn handle_event(&mut self, event: &Event, actions: &mut Vec<Action>)
        requires
            old(self).wf(),
        ensures
            final(self).wf(),
            final(actions)@.len() >= old(actions)@.len(),
            final(actions)@.take(old(actions)@.len() as int) == old(actions)@,
            App::spec_step(
                *old(self),
                *event,
                *final(self),
                final(actions)@.skip(old(actions)@.len() as int),
            ),
    {
        let ghost before = actions@;
        proof {
            assert(actions@.take(before.len() as int) =~= before);
            assert(actions@.skip(before.len() as int) =~= Seq::<Action>::empty());
        }
        let key = match event {
            Event::Key(key) => *key,
            Event::Tick => {
                return ;
            },
        };
        match key {
            Key::Char(c) => {
                if c == 'q' {
                    self.is_running = false;
                    return ;
                }
            },
            Key::Right => {
                if self.can_switch_screens() {
                    self.screen_idx.forward();
                    actions.push(Action::SetMode(self.screens[self.screen_idx.current()].accel_mode));
                    proof {
                        assert(actions@.take(before.len() as int) =~= before);
                        assert(actions@.skip(before.len() as int) =~= seq![
                            Action::SetMode(self.screens@[self.screen_idx.idx as int].accel_mode),
                        ]);
                    }
                    return ;
                }
            },
            Key::Left => {
                if self.can_switch_screens() {
                    self.screen_idx.back();
                    actions.push(Action::SetMode(self.screens[self.screen_idx.current()].accel_mode));
                    proof {
                        assert(actions@.take(before.len() as int) =~= before);
                        assert(actions@.skip(before.len() as int) =~= seq![
                            Action::SetMode(self.screens@[self.screen_idx.idx as int].accel_mode),
                        ]);
                    }
                    return ;
                }
            },
            _ => {},
        }
        let i = self.screen_idx.current();
        let r = self.screens[i].handle_event(key, self.context.get());
        match r {
            Some(action) => {
                actions.push(action);
                proof {
                    assert(actions@.take(before.len() as int) =~= before);
                    assert(actions@.skip(before.len() as int) =~= seq![action]);
                }
            },
            None => {},
        }
    }

    /// What carrying out an action makes of the session, given the store's
    /// answer to the action's write and, for a change of mode, its answers
    /// to the reads made after that write.
    ///
    /// A change of mode that the store refused changes nothing and is an
    /// error. One that it took makes the mode the active one and resets the
    /// parameters under it; where that succeeds, the screen shown shows the
    /// live values again.
    ///
    /// The end of a commit goes to the field with the focus where that is
    /// the field of the parameter; elsewhere only the context takes the
    /// update. It is never an error of the session: a failure is kept in the
    /// field.
    pub open spec fn spec_updated(
        before: App,
        action: Action,
        reply: WriteReply,
        replies: Seq<StoreReply>,
        after: App,
        r: Result<(), StoreError>,
    ) -> bool {
        &&& after.is_running == before.is_running
        &&& after.last_tick_at == before.last_tick_at
        &&& after.screen_idx == before.screen_idx
        &&& after.screens@.len() == before.screens@.len()
        &&& forall|i: int|
            0 <= i < before.screens@.len() && i != before.screen_idx.idx
                ==> #[trigger] after.screens@[i] == before.screens@[i]
        &&& match action {
            Action::SetMode(mode) => match reply {
                WriteReply::Rejected => {
                    &&& r == Err::<(), StoreError>(StoreError::Rejected(Param::Mode))
                    &&& after.context@.current_mode == before.context@.current_mode
                    &&& after.context@.parameters@ == before.context@.parameters@
                    &&& after.screens == before.screens
                },
                WriteReply::Done => {
                    &&& after.context@.current_mode == mode
                    &&& reset_outcome(
                        before.context@.parameters@,
                        mode,
                        replies,
                        r,
                        after.context@.parameters@,
                    )
                    &&& if r is Ok {
                        Screen::spec_refreshed(
                            before.spec_current_screen(),
                            after.context@,
                            after.spec_current_screen(),
                        )
                    } else {
                        after.screens == before.screens
                    }
                },
            },
            Action::SetParam(p, value) => {
                &&& r is Ok
                &&& if before.spec_current_screen().spec_holds_focus_on(p) {
                    Screen::spec_commit_end(
                        before.spec_current_screen(),
                        before.context@,
                        value,
                        reply,
                        after.spec_current_screen(),
                        after.context@,
                        before.context@.spec_update_outcome(p, value, reply),
                    )
                } else {
                    &&& after.screens == before.screens
                    &&& after.context@.current_mode == before.context@.current_mode
                    &&& after.context@.parameters@ == if before.context@.spec_update_outcome(
                        p,
                        value,
                        reply,
                    ) is Ok {
                        before.context@.parameters@.update(
                            before.context@.spec_index(p),
                            Parameter { tag: p, value },
                        )
                    } else {
                        before.context@.parameters@
                    }
                }
            },
        }
    }

    /// Carries out an action after the store has answered.
    pub fn update(&mut self, action: Action, reply: WriteReply, replies: &Vec<StoreReply>) -> (r:
        Result<(), StoreError>)
        requires
            old(self).wf(),
        ensures
            final(self).wf(),
            App::spec_updated(*old(self), action, reply, replies@, *final(self), r),
    {
        let i = self.screen_idx.current();
        match action {
            Action::SetMode(mode) => {
                match self.context.get_mut().set_mode(mode, reply, replies) {
                    Err(e) => {
                        return Err(e);
                    },
                    Ok(()) => {},
                }
                self.screens[i].refresh(self.context.get());
                proof {
                    Screen::lemma_refresh_keeps_idle(
                        old(self).screens@[i as int],
                        self.context@,
                        self.screens@[i as int],
                    );
                }
                Ok(())
            },
            Action::SetParam(p, value) => {
                if self.screens[i].holds_focus_on(p) {
                    let _ = self.screens[i].update_value(self.context.get_mut(), value, reply);
                    proof {
                        Screen::lemma_commit_end_keeps_idle(self.screens@[i as int]);
                    }
                } else {
                    let _ = self.context.get_mut().update_param_value(p, value, reply);
                }
                Ok(())
            },
        }
    }
}

/// While a field of the screen shown is being edited, Left and Right do not
/// switch screens: the index stays, and nothing is asked of the store.
pub proof fn lemma_no_switch_while_editing(before: App, key: Key, after: App, emitted: Seq<Action>)
    requires
        before.wf(),
        before.spec_current_screen().spec_is_in_editing_mode(),
        key == Key::Left || key == Key::Right,
        App::spec_step(before, Event::Key(key), after, emitted),
    ensures
        after.screen_idx == before.screen_idx,
        emitted.len() == 0,
        after.spec_current_screen().spec_is_in_editing_mode(),
{
    let screen = before.spec_current_screen();
    assert(screen.wf());
    let i = choose|i: int|
        0 <= i < screen.param_inputs@.len() && (#[trigger] screen.param_inputs@[i]).spec_is_editing();
    assert(i == screen.selected);
    assert(after.spec_current_screen().param_inputs@[i].spec_is_editing());
}

} // verus!
