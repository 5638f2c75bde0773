use maccel::event::{Action, Event, Key};
use maccel::fixedpt::{Fixedpt, ONE_RAW};
use maccel::params::{AccelMode, Param};
use maccel::session::{collect_inputs_for_params, App, TICK_RATE_MS};
use maccel::store::{StoreError, StoreReply, WriteReply};

fn reply(param: Param, text: &str) -> StoreReply {
    StoreReply {
        param,
        text: Some(text.to_string()),
    }
}

/// A store in which the mode is `mode` and every parameter is `text`.
fn store(mode: &str, text: &str) -> Vec<StoreReply> {
    let mut replies = vec![reply(Param::Mode, mode)];
    for p in Param::all() {
        replies.push(reply(p, text));
    }
    replies
}

fn selectable() -> Vec<AccelMode> {
    vec![AccelMode::Linear, AccelMode::Natural]
}

fn app(mode: &str) -> App {
    App::new(&selectable(), &store(mode, "1"), 1000).unwrap()
}

fn press(app: &mut App, key: Key) -> Vec<Action> {
    let mut actions = Vec::new();
    app.handle_event(&Event::Key(key), &mut actions);
    actions
}

#[test]
fn a_session_starts_on_the_screen_of_the_active_mode() {
    let a = app("0");
    assert!(a.is_running);
    assert_eq!(a.last_tick_at, 1000);
    assert_eq!(a.screens.len(), 2);
    assert_eq!(a.screens[0].accel_mode, AccelMode::Linear);
    assert_eq!(a.screens[1].accel_mode, AccelMode::Natural);
    assert_eq!(a.screen_idx.current(), 0);
    assert_eq!(a.current_screen().accel_mode, AccelMode::Linear);
    assert_eq!(a.context.get().current_mode, AccelMode::Linear);
    let shown: Vec<Param> = a.screens[1].param_inputs.iter().map(|i| i.param).collect();
    assert_eq!(
        shown,
        vec![
            Param::SensMult,
            Param::YxRatio,
            Param::InputDpi,
            Param::DecayRate,
            Param::OffsetNatural,
            Param::Limit,
        ]
    );
    for input in &a.screens[0].param_inputs {
        assert_eq!(input.value, "1.0");
        assert_eq!(input.input.value(), "1.0");
        assert!(!input.is_editing());
        assert_eq!(input.error, None);
    }

    assert_eq!(app("2").screen_idx.current(), 1);
    assert_eq!(app("3").screen_idx.current(), 0);
    assert_eq!(app("3").context.get().current_mode, AccelMode::Synchronous);
}

#[test]
fn a_session_does_not_start_without_its_values() {
    let mut replies = store("0", "1");
    replies.retain(|r| r.param != Param::DecayRate);
    assert_eq!(
        App::new(&selectable(), &replies, 0).err(),
        Some(StoreError::NotFound(Param::DecayRate))
    );
    assert_eq!(
        App::new(&selectable(), &vec![], 0).err(),
        Some(StoreError::NotFound(Param::Mode))
    );
}

#[test]
fn a_session_says_what_to_read() {
    assert_eq!(
        App::initial_reads(&vec![AccelMode::Natural]),
        vec![
            Param::Mode,
            Param::SensMult,
            Param::YxRatio,
            Param::InputDpi,
            Param::DecayRate,
            Param::OffsetNatural,
            Param::Limit,
        ]
    );
    assert_eq!(App::initial_reads(&vec![]), vec![Param::Mode]);
    let a = app("0");
    assert_eq!(
        a.reads_after(Action::SetMode(AccelMode::Natural), WriteReply::Done),
        vec![
            Param::SensMult,
            Param::YxRatio,
            Param::InputDpi,
            Param::DecayRate,
            Param::OffsetNatural,
            Param::Limit,
        ]
    );
    assert_eq!(
        a.reads_after(Action::SetMode(AccelMode::Classic), WriteReply::Done),
        vec![Param::SensMult, Param::YxRatio, Param::InputDpi]
    );
    assert_eq!(
        a.reads_after(Action::SetMode(AccelMode::Natural), WriteReply::Rejected),
        vec![]
    );
    assert_eq!(
        a.reads_after(Action::SetParam(Param::Limit, Fixedpt(0)), WriteReply::Done),
        vec![]
    );
}

#[test]
fn fields_are_collected_for_what_is_tracked() {
    let a = app("0");
    let inputs = collect_inputs_for_params(
        &vec![Param::Limit, Param::Gamma, Param::AccelLinear],
        a.context.get(),
    );
    let shown: Vec<Param> = inputs.iter().map(|i| i.param).collect();
    assert_eq!(
        shown,
        vec![
            Param::SensMult,
            Param::YxRatio,
            Param::InputDpi,
            Param::Limit,
            Param::AccelLinear,
        ]
    );
}

#[test]
fn right_and_left_switch_screens_and_ask_for_the_mode() {
    let mut a = app("0");
    assert!(a.can_switch_screens());
    assert_eq!(press(&mut a, Key::Right), vec![Action::SetMode(AccelMode::Natural)]);
    assert_eq!(a.screen_idx.current(), 1);
    assert_eq!(press(&mut a, Key::Right), vec![Action::SetMode(AccelMode::Linear)]);
    assert_eq!(a.screen_idx.current(), 0);
    assert_eq!(press(&mut a, Key::Left), vec![Action::SetMode(AccelMode::Natural)]);
    assert_eq!(a.screen_idx.current(), 1);
    assert_eq!(press(&mut a, Key::Left), vec![Action::SetMode(AccelMode::Linear)]);
    assert_eq!(a.screen_idx.current(), 0);
    assert_eq!(a.context.get().current_mode, AccelMode::Linear);
}

#[test]
fn screens_are_not_switched_during_an_edit() {
    let mut a = app("0");
    assert_eq!(press(&mut a, Key::Char('i')), vec![]);
    assert!(a.current_screen().is_in_editing_mode());
    assert!(!a.can_switch_screens());
    for key in [Key::Right, Key::Left, Key::Left, Key::Right] {
        assert_eq!(press(&mut a, key), vec![]);
        assert_eq!(a.screen_idx.current(), 0);
        assert!(a.current_screen().is_in_editing_mode());
    }
    assert_eq!(a.screens[0].param_inputs[0].input.value(), "1.0");
    assert_eq!(press(&mut a, Key::Esc), vec![]);
    assert_eq!(press(&mut a, Key::Right), vec![Action::SetMode(AccelMode::Natural)]);
    assert_eq!(a.screen_idx.current(), 1);
}

#[test]
fn a_single_screen_is_never_switched() {
    let mut a = App::new(&vec![AccelMode::Classic], &store("1", "1"), 0).unwrap();
    assert!(!a.can_switch_screens());
    assert_eq!(press(&mut a, Key::Right), vec![]);
    assert_eq!(press(&mut a, Key::Left), vec![]);
    assert_eq!(a.screen_idx.current(), 0);
}

#[test]
fn q_ends_the_session_even_during_an_edit() {
    let mut a = app("0");
    press(&mut a, Key::Char('i'));
    press(&mut a, Key::Char('5'));
    assert_eq!(press(&mut a, Key::Char('q')), vec![]);
    assert!(!a.is_running);
    assert_eq!(a.screens[0].param_inputs[0].input.value(), "1.05");
    assert_eq!(a.screens[0].param_inputs[0].value, "1.0");
    assert_eq!(
        a.context.get().parameter(Param::SensMult).unwrap().value,
        Fixedpt(ONE_RAW)
    );

    let mut b = app("0");
    assert_eq!(press(&mut b, Key::Char('q')), vec![]);
    assert!(!b.is_running);
}

#[test]
fn a_tick_event_changes_nothing() {
    let mut a = app("0");
    let mut actions = vec![Action::SetMode(AccelMode::Linear)];
    a.handle_event(&Event::Tick, &mut actions);
    assert_eq!(actions, vec![Action::SetMode(AccelMode::Linear)]);
    assert!(a.is_running);
    assert_eq!(a.screen_idx.current(), 0);
}

#[test]
fn actions_are_appended_to_those_already_there() {
    let mut a = app("0");
    let mut actions = vec![Action::SetParam(Param::Gamma, Fixedpt(1))];
    a.handle_event(&Event::Key(Key::Right), &mut actions);
    assert_eq!(
        actions,
        vec![
            Action::SetParam(Param::Gamma, Fixedpt(1)),
            Action::SetMode(AccelMode::Natural),
        ]
    );
}

#[test]
fn a_mode_change_is_carried_out_after_the_store_took_it() {
    let mut a = app("0");
    let actions = press(&mut a, Key::Right);
    assert_eq!(actions, vec![Action::SetMode(AccelMode::Natural)]);
    let write = actions[0].store_write();
    assert_eq!(write.param, Param::Mode);
    assert_eq!(write.text, "2");

    let r = a.update(actions[0], WriteReply::Done, &store("2", "3"));
    assert_eq!(r, Ok(()));
    let ctx = a.context.get();
    assert_eq!(ctx.current_mode, AccelMode::Natural);
    assert_eq!(ctx.parameter(Param::Limit).unwrap().value, Fixedpt(3 * ONE_RAW));
    assert_eq!(ctx.parameter(Param::SensMult).unwrap().value, Fixedpt(3 * ONE_RAW));
    assert_eq!(ctx.parameter(Param::AccelLinear).unwrap().value, Fixedpt(ONE_RAW));
    for input in &a.screens[1].param_inputs {
        assert_eq!(input.value, "3.0");
        assert_eq!(input.input.value(), "3.0");
    }
    for input in &a.screens[0].param_inputs {
        assert_eq!(input.value, "1.0");
    }
}

#[test]
fn a_mode_change_that_the_store_refused_is_an_error() {
    let mut a = app("0");
    let actions = press(&mut a, Key::Right);
    let r = a.update(actions[0], WriteReply::Rejected, &store("2", "3"));
    assert_eq!(r, Err(StoreError::Rejected(Param::Mode)));
    assert_eq!(a.context.get().current_mode, AccelMode::Linear);
    assert_eq!(
        a.context.get().parameter(Param::Limit).unwrap().value,
        Fixedpt(ONE_RAW)
    );

    let mut b = app("0");
    let actions = press(&mut b, Key::Right);
    let r = b.update(actions[0], WriteReply::Done, &vec![]);
    assert_eq!(r, Err(StoreError::NotFound(Param::SensMult)));
    for input in &b.screens[1].param_inputs {
        assert_eq!(input.value, "1.0");
    }
}

#[test]
fn an_edit_is_committed_through_the_session() {
    let mut a = app("0");
    press(&mut a, Key::Down);
    press(&mut a, Key::Down);
    press(&mut a, Key::Down);
    assert!(a.current_screen().holds_focus_on(Param::AccelLinear));
    press(&mut a, Key::Char('i'));
    press(&mut a, Key::Backspace);
    press(&mut a, Key::Char('2'));
    press(&mut a, Key::Char('5'));
    let actions = press(&mut a, Key::Enter);
    let value = Fixedpt(5 * ONE_RAW / 4);
    assert_eq!(actions, vec![Action::SetParam(Param::AccelLinear, value)]);
    assert_eq!(actions[0].store_write().text, "1.25");
    assert!(a.current_screen().is_in_editing_mode());

    assert_eq!(a.update(actions[0], WriteReply::Done, &vec![]), Ok(()));
    assert!(!a.current_screen().is_in_editing_mode());
    assert_eq!(a.screens[0].param_inputs[3].value, "1.25");
    assert_eq!(a.screens[0].param_inputs[3].error, None);
    assert_eq!(
        a.context.get().parameter(Param::AccelLinear).unwrap().value,
        value
    );
    assert_eq!(a.context.get().params_snapshot().accel_linear, value);
}

#[test]
fn a_refused_edit_is_kept_in_the_field_and_the_session_goes_on() {
    let mut a = app("0");
    press(&mut a, Key::Char('i'));
    press(&mut a, Key::Char('5'));
    let actions = press(&mut a, Key::Enter);
    assert_eq!(actions.len(), 1);
    assert_eq!(a.update(actions[0], WriteReply::Rejected, &vec![]), Ok(()));
    assert!(a.is_running);
    assert!(!a.current_screen().is_in_editing_mode());
    let field = &a.screens[0].param_inputs[0];
    assert_eq!(field.value, "1.0");
    assert_eq!(field.input.value(), "1.0");
    assert_eq!(field.error, Some("the value could not be stored".to_string()));
    assert_eq!(
        a.context.get().parameter(Param::SensMult).unwrap().value,
        Fixedpt(ONE_RAW)
    );
}

#[test]
fn an_invalid_edit_asks_nothing_of_the_store() {
    let mut a = app("0");
    for _ in 0..4 {
        press(&mut a, Key::Down);
    }
    assert!(a.current_screen().holds_focus_on(Param::OffsetLinear));
    press(&mut a, Key::Char('i'));
    press(&mut a, Key::Home);
    press(&mut a, Key::Char('-'));
    assert_eq!(press(&mut a, Key::Enter), vec![]);
    let field = &a.screens[0].param_inputs[4];
    assert_eq!(field.input.value(), "1.0");
    assert_eq!(field.error, Some("offset cannot be less than 0".to_string()));
    assert!(!a.current_screen().is_in_editing_mode());
}

#[test]
fn an_update_for_a_field_without_the_focus_reaches_the_context() {
    let mut a = app("0");
    let action = Action::SetParam(Param::Limit, Fixedpt(2 * ONE_RAW));
    assert_eq!(a.update(action, WriteReply::Done, &vec![]), Ok(()));
    assert_eq!(
        a.context.get().parameter(Param::Limit).unwrap().value,
        Fixedpt(2 * ONE_RAW)
    );
    assert_eq!(a.update(action, WriteReply::Rejected, &vec![]), Ok(()));
    let bad = Action::SetParam(Param::Limit, Fixedpt(0));
    assert_eq!(a.update(bad, WriteReply::Done, &vec![]), Ok(()));
    assert_eq!(
        a.context.get().parameter(Param::Limit).unwrap().value,
        Fixedpt(2 * ONE_RAW)
    );
}

#[test]
fn ticks_are_let_through_at_the_tick_rate() {
    let mut a = app("0");
    assert_eq!(TICK_RATE_MS, 16);
    assert!(!a.tick(1000));
    assert!(!a.tick(1015));
    assert_eq!(a.last_tick_at, 1000);
    assert!(a.tick(1016));
    assert_eq!(a.last_tick_at, 1016);
    assert!(!a.tick(1020));
    assert!(!a.tick(5));
    assert_eq!(a.last_tick_at, 1016);
    assert!(a.tick(u64::MAX));
    assert_eq!(a.last_tick_at, u64::MAX);
}

#[test]
fn a_session_that_was_tampered_with_is_not_well_formed() {
    let mut a = app("0");
    assert!(a.is_well_formed());
    press(&mut a, Key::Char('i'));
    press(&mut a, Key::Char('5'));
    assert!(a.is_well_formed());
    a.screen_idx.idx = 1;
    assert!(!a.is_well_formed());
    a.screen_idx.idx = 7;
    assert!(!a.is_well_formed());

    let mut b = app("0");
    b.screens[1].selected = 9;
    assert!(!b.screens[1].is_well_formed());
    assert!(!b.is_well_formed());
    b.screens[1].selected = 1;
    b.screens[1].param_inputs[0].value = "other".to_string();
    assert!(!b.screens[1].param_inputs[0].is_well_formed());
    assert!(!b.is_well_formed());

    let mut c = app("0");
    c.screens.clear();
    assert!(!c.is_well_formed());
}

#[test]
fn the_screen_shown_can_be_changed_in_place() {
    let mut a = app("2");
    assert_eq!(a.current_screen().accel_mode, AccelMode::Natural);
    a.current_screen_mut().selected = 2;
    assert_eq!(a.screens[1].selected, 2);
    assert_eq!(a.screens[0].selected, 0);
}
