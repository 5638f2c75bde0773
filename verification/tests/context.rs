use maccel::context::{ContextRef, Parameter, TuiContext, UpdateError};
use maccel::fixedpt::{Fixedpt, ONE_RAW};
use maccel::params::{AccelMode, Param, ValidationError};
use maccel::store::{
    mode_write_request, parse_mode, read, read_mode, write_request, StoreError, StoreReply,
    WriteReply,
};

fn reply(param: Param, text: &str) -> StoreReply {
    StoreReply {
        param,
        text: Some(text.to_string()),
    }
}

fn missing(param: Param) -> StoreReply {
    StoreReply { param, text: None }
}

/// A store in which the mode is `mode` and every parameter is `text`.
fn store(mode: &str, text: &str) -> Vec<StoreReply> {
    let mut replies = vec![reply(Param::Mode, mode)];
    for p in Param::all() {
        replies.push(reply(p, text));
    }
    replies
}

fn all_modes() -> Vec<AccelMode> {
    AccelMode::all()
}

#[test]
fn reads_values_from_the_stores_answers() {
    let replies = vec![
        reply(Param::SensMult, "1.5"),
        missing(Param::YxRatio),
        reply(Param::Limit, "much"),
        reply(Param::SensMult, "7"),
    ];
    assert_eq!(read(&replies, Param::SensMult), Ok(Fixedpt(6442450944)));
    assert_eq!(
        read(&replies, Param::YxRatio),
        Err(StoreError::NotFound(Param::YxRatio))
    );
    assert_eq!(
        read(&replies, Param::Gamma),
        Err(StoreError::NotFound(Param::Gamma))
    );
    assert_eq!(
        read(&replies, Param::Limit),
        Err(StoreError::Unparsable(Param::Limit))
    );
}

#[test]
fn reads_the_mode_from_its_ordinal() {
    assert_eq!(parse_mode("0"), Some(AccelMode::Linear));
    assert_eq!(parse_mode("1"), Some(AccelMode::Classic));
    assert_eq!(parse_mode("2"), Some(AccelMode::Natural));
    assert_eq!(parse_mode("3"), Some(AccelMode::Synchronous));
    assert_eq!(parse_mode("4"), None);
    assert_eq!(parse_mode(""), None);
    assert_eq!(parse_mode("01"), None);
    assert_eq!(parse_mode("x"), None);
    assert_eq!(read_mode(&vec![reply(Param::Mode, "2")]), Ok(AccelMode::Natural));
    assert_eq!(
        read_mode(&vec![reply(Param::Mode, "9")]),
        Err(StoreError::Unparsable(Param::Mode))
    );
    assert_eq!(
        read_mode(&vec![missing(Param::Mode)]),
        Err(StoreError::NotFound(Param::Mode))
    );
    assert_eq!(read_mode(&vec![]), Err(StoreError::NotFound(Param::Mode)));
}

#[test]
fn says_what_to_write() {
    let w = write_request(Param::Limit, Fixedpt(6442450944));
    assert_eq!(w.param, Param::Limit);
    assert_eq!(w.text, "1.5");
    for mode in all_modes() {
        let w = mode_write_request(mode);
        assert_eq!(w.param, Param::Mode);
        assert_eq!(parse_mode(&w.text), Some(mode));
    }
    assert_eq!(mode_write_request(AccelMode::Natural).text, "2");
    assert_eq!(TuiContext::mode_change_request(AccelMode::Synchronous).text, "3");
}

#[test]
fn store_errors_name_their_parameter() {
    assert_eq!(StoreError::NotFound(Param::Gamma).param(), Param::Gamma);
    assert_eq!(StoreError::Unparsable(Param::Limit).param(), Param::Limit);
    assert_eq!(StoreError::Rejected(Param::Mode).param(), Param::Mode);
    assert_eq!(
        StoreError::NotFound(Param::Gamma).message(),
        "the parameter has no stored value"
    );
    assert_eq!(
        StoreError::Unparsable(Param::Gamma).message(),
        "the stored value cannot be read"
    );
    assert_eq!(
        StoreError::Rejected(Param::Gamma).message(),
        "the value could not be stored"
    );
}

#[test]
fn builds_a_context_for_all_modes() {
    let ctx = TuiContext::new(&all_modes(), &store("2", "1.5")).unwrap();
    assert_eq!(ctx.current_mode, AccelMode::Natural);
    let tags: Vec<Param> = ctx.parameters.iter().map(|p| p.tag).collect();
    assert_eq!(tags, Param::all());
    for p in &ctx.parameters {
        assert_eq!(p.value, Fixedpt(6442450944));
    }
    assert_eq!(TuiContext::tracked_params(&all_modes()), Param::all());
}

#[test]
fn tracks_only_what_the_selectable_modes_need() {
    let selectable = vec![AccelMode::Linear, AccelMode::Natural];
    let ctx = TuiContext::new(&selectable, &store("0", "2")).unwrap();
    let tags: Vec<Param> = ctx.parameters.iter().map(|p| p.tag).collect();
    assert_eq!(
        tags,
        vec![
            Param::SensMult,
            Param::YxRatio,
            Param::InputDpi,
            Param::AccelLinear,
            Param::OffsetLinear,
            Param::OutputCapLinear,
            Param::DecayRate,
            Param::OffsetNatural,
            Param::Limit,
        ]
    );
    assert_eq!(ctx.parameter(Param::Gamma), None);
    assert_eq!(ctx.parameter(Param::Mode), None);
    assert_eq!(
        ctx.parameter(Param::Limit),
        Some(&Parameter::new(Param::Limit, Fixedpt(2 * ONE_RAW)))
    );
    assert_eq!(TuiContext::tracked_params(&vec![]), vec![]);
}

#[test]
fn a_context_is_never_partly_built() {
    let mut replies = store("0", "1");
    replies.retain(|r| r.param != Param::Limit);
    assert_eq!(
        TuiContext::new(&all_modes(), &replies).err(),
        Some(StoreError::NotFound(Param::Limit))
    );
    let selectable = vec![AccelMode::Linear];
    assert!(TuiContext::new(&selectable, &replies).is_ok());

    let mut replies = store("0", "1");
    replies.insert(0, reply(Param::Gamma, "?"));
    replies.insert(0, missing(Param::YxRatio));
    assert_eq!(
        TuiContext::new(&all_modes(), &replies).err(),
        Some(StoreError::NotFound(Param::YxRatio))
    );

    let replies = store("7", "1");
    assert_eq!(
        TuiContext::new(&all_modes(), &replies).err(),
        Some(StoreError::Unparsable(Param::Mode))
    );
    let mut replies = store("0", "1");
    replies.remove(0);
    assert_eq!(
        TuiContext::new(&all_modes(), &replies).err(),
        Some(StoreError::NotFound(Param::Mode))
    );
}

#[test]
fn checks_an_update_before_anything_is_written() {
    let ctx = TuiContext::new(&vec![AccelMode::Linear], &store("0", "1")).unwrap();
    let w = ctx.check_update(Param::OffsetLinear, Fixedpt(ONE_RAW / 2)).unwrap();
    assert_eq!(w.param, Param::OffsetLinear);
    assert_eq!(w.text, "0.5");
    assert_eq!(
        ctx.check_update(Param::OffsetLinear, Fixedpt(-1)).err(),
        Some(UpdateError::Invalid(ValidationError::NegativeOffset))
    );
    assert_eq!(
        ctx.check_update(Param::Limit, Fixedpt(5 * ONE_RAW)).err(),
        Some(UpdateError::UnknownParameter)
    );
    assert_eq!(
        ctx.check_update(Param::Limit, Fixedpt(0)).err(),
        Some(UpdateError::UnknownParameter)
    );
}

#[test]
fn an_update_that_the_store_took_changes_the_live_value() {
    let mut ctx = TuiContext::new(&all_modes(), &store("0", "1")).unwrap();
    let before = ctx.parameters.clone();
    let r = ctx.update_param_value(Param::Limit, Fixedpt(3 * ONE_RAW), WriteReply::Done);
    assert_eq!(r, Ok(()));
    assert_eq!(ctx.parameter(Param::Limit).unwrap().value, Fixedpt(3 * ONE_RAW));
    assert_eq!(ctx.current_mode, AccelMode::Linear);
    for (old, new) in before.iter().zip(ctx.parameters.iter()) {
        assert_eq!(old.tag, new.tag);
        if old.tag != Param::Limit {
            assert_eq!(old, new);
        }
    }
}

#[test]
fn an_update_that_fails_changes_nothing() {
    let mut ctx = TuiContext::new(&vec![AccelMode::Natural], &store("2", "1")).unwrap();
    let before = ctx.parameters.clone();

    let r = ctx.update_param_value(Param::Limit, Fixedpt(3 * ONE_RAW), WriteReply::Rejected);
    assert_eq!(r, Err(UpdateError::Store(StoreError::Rejected(Param::Limit))));
    assert_eq!(ctx.parameters, before);

    let r = ctx.update_param_value(Param::Limit, Fixedpt(ONE_RAW - 1), WriteReply::Done);
    assert_eq!(r, Err(UpdateError::Invalid(ValidationError::LimitBelowOne)));
    assert_eq!(ctx.parameters, before);

    let r = ctx.update_param_value(Param::DecayRate, Fixedpt(-1), WriteReply::Done);
    assert_eq!(r, Err(UpdateError::Invalid(ValidationError::NegativeDecayRate)));
    assert_eq!(ctx.parameters, before);

    let r = ctx.update_param_value(Param::Gamma, Fixedpt(0), WriteReply::Done);
    assert_eq!(r, Err(UpdateError::UnknownParameter));
    assert_eq!(ctx.parameters, before);
    assert_eq!(ctx.current_mode, AccelMode::Natural);
}

#[test]
fn update_errors_have_messages() {
    assert_eq!(
        UpdateError::UnknownParameter.message(),
        "Unknown parameter, cannot update"
    );
    assert_eq!(
        UpdateError::Invalid(ValidationError::LimitBelowOne).message(),
        "limit cannot be less than 1"
    );
    assert_eq!(
        UpdateError::Store(StoreError::Rejected(Param::Limit)).message(),
        "the value could not be stored"
    );
}

#[test]
fn a_reset_touches_only_the_active_modes_group() {
    let mut ctx = TuiContext::new(&all_modes(), &store("0", "1")).unwrap();
    assert_eq!(
        ctx.params_to_reset(AccelMode::Linear),
        vec![
            Param::SensMult,
            Param::YxRatio,
            Param::InputDpi,
            Param::AccelLinear,
            Param::OffsetLinear,
            Param::OutputCapLinear,
        ]
    );
    assert_eq!(
        ctx.params_to_reset(AccelMode::Natural),
        vec![
            Param::SensMult,
            Param::YxRatio,
            Param::InputDpi,
            Param::DecayRate,
            Param::OffsetNatural,
            Param::Limit,
        ]
    );
    let before = ctx.parameters.clone();
    assert_eq!(ctx.reset_current_parameters(&store("0", "2")), Ok(()));
    for (old, new) in before.iter().zip(ctx.parameters.iter()) {
        assert_eq!(old.tag, new.tag);
        if old.tag.belongs_to(AccelMode::Linear) {
            assert_eq!(new.value, Fixedpt(2 * ONE_RAW));
        } else {
            assert_eq!(new, old);
        }
    }
}

#[test]
fn a_reset_that_fails_changes_nothing() {
    let mut ctx = TuiContext::new(&all_modes(), &store("0", "1")).unwrap();
    let before = ctx.parameters.clone();
    let mut replies = store("0", "2");
    replies.retain(|r| r.param != Param::OffsetLinear && r.param != Param::OutputCapLinear);
    assert_eq!(
        ctx.reset_current_parameters(&replies),
        Err(StoreError::NotFound(Param::OffsetLinear))
    );
    assert_eq!(ctx.parameters, before);
    replies.retain(|r| r.param != Param::Gamma);
    replies.push(reply(Param::OffsetLinear, "2"));
    replies.push(reply(Param::OutputCapLinear, "two"));
    assert_eq!(
        ctx.reset_current_parameters(&replies),
        Err(StoreError::Unparsable(Param::OutputCapLinear))
    );
    assert_eq!(ctx.parameters, before);
}

#[test]
fn a_parameter_resets_itself_from_the_store() {
    let mut p = Parameter::new(Param::Gamma, Fixedpt(5));
    assert_eq!(p.reset(&vec![reply(Param::Gamma, "1")]), Ok(()));
    assert_eq!(p, Parameter::new(Param::Gamma, Fixedpt(ONE_RAW)));
    assert_eq!(p.reset(&vec![]), Err(StoreError::NotFound(Param::Gamma)));
    assert_eq!(p, Parameter::new(Param::Gamma, Fixedpt(ONE_RAW)));
    assert_eq!(
        Parameter::from_store(Param::Smooth, &vec![reply(Param::Smooth, "0.5")]),
        Ok(Parameter::new(Param::Smooth, Fixedpt(ONE_RAW / 2)))
    );
    assert_eq!(
        Parameter::from_store(Param::Smooth, &vec![reply(Param::Smooth, "")]),
        Err(StoreError::Unparsable(Param::Smooth))
    );
}

#[test]
fn switching_from_linear_to_natural_rereads_the_natural_group() {
    let mut ctx = TuiContext::new(&all_modes(), &store("0", "1")).unwrap();
    assert_eq!(ctx.current_mode, AccelMode::Linear);
    let write = TuiContext::mode_change_request(AccelMode::Natural);
    assert_eq!(write.param, Param::Mode);
    assert_eq!(write.text, AccelMode::Natural.ordinal().to_string());

    let r = ctx.set_mode(AccelMode::Natural, WriteReply::Done, &store("2", "3"));
    assert_eq!(r, Ok(()));
    assert_eq!(ctx.current_mode, AccelMode::Natural);
    for p in [Param::DecayRate, Param::OffsetNatural, Param::Limit] {
        assert_eq!(ctx.parameter(p).unwrap().value, Fixedpt(3 * ONE_RAW));
    }
    for p in [Param::SensMult, Param::YxRatio, Param::InputDpi] {
        assert_eq!(ctx.parameter(p).unwrap().value, Fixedpt(3 * ONE_RAW));
    }
    for p in [Param::AccelLinear, Param::OffsetLinear, Param::OutputCapLinear] {
        assert_eq!(ctx.parameter(p).unwrap().value, Fixedpt(ONE_RAW));
    }
    for p in AccelMode::Classic.own_params() {
        assert_eq!(ctx.parameter(p).unwrap().value, Fixedpt(ONE_RAW));
    }
}

#[test]
fn a_mode_that_the_store_refused_is_not_set() {
    let mut ctx = TuiContext::new(&all_modes(), &store("0", "1")).unwrap();
    let before = ctx.parameters.clone();
    let r = ctx.set_mode(AccelMode::Natural, WriteReply::Rejected, &store("2", "3"));
    assert_eq!(r, Err(StoreError::Rejected(Param::Mode)));
    assert_eq!(ctx.current_mode, AccelMode::Linear);
    assert_eq!(ctx.parameters, before);
}

#[test]
fn a_mode_switch_whose_reads_fail_keeps_the_values() {
    let mut ctx = TuiContext::new(&all_modes(), &store("0", "1")).unwrap();
    let before = ctx.parameters.clone();
    let r = ctx.set_mode(AccelMode::Natural, WriteReply::Done, &vec![]);
    assert_eq!(r, Err(StoreError::NotFound(Param::SensMult)));
    assert_eq!(ctx.current_mode, AccelMode::Natural);
    assert_eq!(ctx.parameters, before);
}

#[test]
fn a_snapshot_copies_every_live_value() {
    let mut replies = vec![reply(Param::Mode, "1")];
    for (i, p) in Param::all().into_iter().enumerate() {
        replies.push(reply(p, &format!("{}", i + 1)));
    }
    let ctx = TuiContext::new(&all_modes(), &replies).unwrap();
    let s = ctx.params_snapshot();
    let got = [
        s.sens_mult,
        s.yx_ratio,
        s.input_dpi,
        s.accel_linear,
        s.offset_linear,
        s.output_cap_linear,
        s.accel_classic,
        s.power_classic,
        s.offset_classic,
        s.output_cap_classic,
        s.decay_rate,
        s.offset_natural,
        s.limit,
        s.gamma,
        s.smooth,
        s.motivity,
        s.sync_speed,
    ];
    for (i, value) in got.iter().enumerate() {
        assert_eq!(*value, Fixedpt((i as i64 + 1) * ONE_RAW));
    }
}

#[test]
fn a_snapshot_has_zero_for_what_is_not_tracked() {
    let ctx = TuiContext::new(&vec![AccelMode::Linear], &store("0", "4")).unwrap();
    let s = ctx.params_snapshot();
    assert_eq!(s.sens_mult, Fixedpt(4 * ONE_RAW));
    assert_eq!(s.accel_linear, Fixedpt(4 * ONE_RAW));
    assert_eq!(s.limit, Fixedpt(0));
    assert_eq!(s.gamma, Fixedpt(0));
    let args = s.convert_to_accel_args(ctx.current_mode);
    assert_eq!(args.args.mode(), AccelMode::Linear);
}

#[test]
fn the_owner_hands_the_context_out_by_reference() {
    let ctx = TuiContext::new(&all_modes(), &store("3", "1")).unwrap();
    let mut owner = ContextRef::new(ctx);
    assert_eq!(owner.get().current_mode, AccelMode::Synchronous);
    owner.get_mut().current_mode = AccelMode::Classic;
    assert_eq!(owner.get().current_mode, AccelMode::Classic);
    let r = owner
        .get_mut()
        .update_param_value(Param::Gamma, Fixedpt(9), WriteReply::Done);
    assert_eq!(r, Ok(()));
    assert_eq!(owner.get().parameter(Param::Gamma).unwrap().value, Fixedpt(9));
}
