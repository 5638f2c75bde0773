use maccel::accel_args::{
    AccelArgsChoice, AllParamArgs, ClassicCurveArgs, LinearCurveArgs, NaturalCurveArgs,
    SynchronousCurveArgs,
};
use maccel::fixedpt::{Fixedpt, ONE_RAW};
use maccel::params::{common_params, AccelMode, Param, ValidationError};

fn snapshot() -> AllParamArgs {
    AllParamArgs {
        sens_mult: Fixedpt(1),
        yx_ratio: Fixedpt(2),
        input_dpi: Fixedpt(3),
        accel_linear: Fixedpt(4),
        offset_linear: Fixedpt(5),
        output_cap_linear: Fixedpt(6),
        accel_classic: Fixedpt(7),
        power_classic: Fixedpt(8),
        offset_classic: Fixedpt(9),
        output_cap_classic: Fixedpt(10),
        decay_rate: Fixedpt(11),
        offset_natural: Fixedpt(12),
        limit: Fixedpt(13),
        gamma: Fixedpt(14),
        smooth: Fixedpt(15),
        motivity: Fixedpt(16),
        sync_speed: Fixedpt(17),
    }
}

#[test]
fn modes_have_ordinals() {
    assert_eq!(AccelMode::Linear.ordinal(), 0);
    assert_eq!(AccelMode::Classic.ordinal(), 1);
    assert_eq!(AccelMode::Natural.ordinal(), 2);
    assert_eq!(AccelMode::Synchronous.ordinal(), 3);
    for mode in AccelMode::all() {
        assert_eq!(AccelMode::from_ordinal(mode.ordinal()), Some(mode));
    }
    assert_eq!(AccelMode::from_ordinal(4), None);
    assert_eq!(AccelMode::from_ordinal(255), None);
}

#[test]
fn every_mode_has_its_own_parameters() {
    assert_eq!(
        AccelMode::Linear.own_params(),
        vec![Param::AccelLinear, Param::OffsetLinear, Param::OutputCapLinear]
    );
    assert_eq!(
        AccelMode::Classic.own_params(),
        vec![
            Param::AccelClassic,
            Param::PowerClassic,
            Param::OffsetClassic,
            Param::OutputCapClassic
        ]
    );
    assert_eq!(
        AccelMode::Natural.own_params(),
        vec![Param::DecayRate, Param::OffsetNatural, Param::Limit]
    );
    assert_eq!(
        AccelMode::Synchronous.own_params(),
        vec![Param::Gamma, Param::Smooth, Param::Motivity, Param::SyncSpeed]
    );
    assert_eq!(
        common_params(),
        vec![Param::SensMult, Param::YxRatio, Param::InputDpi]
    );
}

#[test]
fn all_parameters_are_the_common_ones_and_each_modes_own() {
    let mut expected = common_params();
    for mode in AccelMode::all() {
        expected.extend(mode.own_params());
    }
    assert_eq!(Param::all(), expected);
    assert_eq!(Param::all().len(), 17);
    assert!(!Param::all().contains(&Param::Mode));
}

#[test]
fn groups_hold_common_and_own_parameters() {
    for mode in AccelMode::all() {
        for p in common_params() {
            assert!(p.is_common());
            assert!(p.belongs_to(mode));
        }
        for p in mode.own_params() {
            assert!(!p.is_common());
            assert!(p.belongs_to(mode));
            assert_eq!(p.modes(), vec![mode]);
            for other in AccelMode::all() {
                assert_eq!(p.belongs_to(other), other == mode);
            }
        }
        assert!(!Param::Mode.belongs_to(mode));
    }
    assert_eq!(Param::SensMult.modes(), AccelMode::all());
    assert_eq!(Param::Mode.modes(), vec![]);
}

#[test]
fn names_and_labels_are_fixed() {
    assert_eq!(Param::SensMult.name(), "SENS_MULT");
    assert_eq!(Param::OffsetLinear.name(), "OFFSET_LINEAR");
    assert_eq!(Param::SyncSpeed.name(), "SYNC_SPEED");
    assert_eq!(Param::Mode.name(), "MODE");
    assert_eq!(Param::SensMult.display_name(), "Sens-Multiplier");
    assert_eq!(Param::OffsetNatural.display_name(), "Offset");
    assert_eq!(Param::Limit.display_name(), "Limit");
    let mut names: Vec<&str> = Param::all().iter().map(|p| p.name()).collect();
    names.push(Param::Mode.name());
    let count = names.len();
    names.sort();
    names.dedup();
    assert_eq!(names.len(), count);
}

#[test]
fn offsets_and_decay_rate_may_not_be_negative() {
    for p in [
        Param::OffsetLinear,
        Param::OffsetClassic,
        Param::OffsetNatural,
    ] {
        assert_eq!(p.validate(Fixedpt(-1)), Err(ValidationError::NegativeOffset));
        assert_eq!(p.validate(Fixedpt(i64::MIN)), Err(ValidationError::NegativeOffset));
        assert_eq!(p.validate(Fixedpt(0)), Ok(()));
        assert_eq!(p.validate(Fixedpt(1)), Ok(()));
    }
    assert_eq!(
        Param::DecayRate.validate(Fixedpt(-1)),
        Err(ValidationError::NegativeDecayRate)
    );
    assert_eq!(Param::DecayRate.validate(Fixedpt(0)), Ok(()));
}

#[test]
fn limit_may_not_be_below_one() {
    assert_eq!(
        Param::Limit.validate(Fixedpt(ONE_RAW - 1)),
        Err(ValidationError::LimitBelowOne)
    );
    assert_eq!(
        Param::Limit.validate(Fixedpt(0)),
        Err(ValidationError::LimitBelowOne)
    );
    assert_eq!(
        Param::Limit.validate(Fixedpt(-ONE_RAW)),
        Err(ValidationError::LimitBelowOne)
    );
    assert_eq!(Param::Limit.validate(Fixedpt(ONE_RAW)), Ok(()));
    assert_eq!(Param::Limit.validate(Fixedpt(ONE_RAW + 1)), Ok(()));
}

#[test]
fn other_parameters_take_every_value() {
    for p in [
        Param::SensMult,
        Param::YxRatio,
        Param::InputDpi,
        Param::AccelLinear,
        Param::OutputCapLinear,
        Param::AccelClassic,
        Param::PowerClassic,
        Param::OutputCapClassic,
        Param::Gamma,
        Param::Smooth,
        Param::Motivity,
        Param::SyncSpeed,
        Param::Mode,
    ] {
        for raw in [i64::MIN, -ONE_RAW, -1, 0, 1, ONE_RAW, i64::MAX] {
            assert_eq!(p.validate(Fixedpt(raw)), Ok(()));
        }
    }
}

#[test]
fn validation_errors_have_messages() {
    assert_eq!(
        ValidationError::NegativeOffset.message(),
        "offset cannot be less than 0"
    );
    assert_eq!(
        ValidationError::NegativeDecayRate.message(),
        "decay rate cannot be less than 0"
    );
    assert_eq!(
        ValidationError::LimitBelowOne.message(),
        "limit cannot be less than 1"
    );
}

#[test]
fn assembles_linear_arguments() {
    let args = snapshot().convert_to_accel_args(AccelMode::Linear);
    assert_eq!(args.param_sens_mult, Fixedpt(1));
    assert_eq!(args.param_yx_ratio, Fixedpt(2));
    assert_eq!(args.param_input_dpi, Fixedpt(3));
    assert_eq!(
        args.args,
        AccelArgsChoice::Linear(LinearCurveArgs {
            accel: Fixedpt(4),
            offset: Fixedpt(5),
            output_cap: Fixedpt(6),
        })
    );
    assert_eq!(args.args.mode(), AccelMode::Linear);
}

#[test]
fn assembles_classic_arguments() {
    let args = snapshot().convert_to_accel_args(AccelMode::Classic);
    assert_eq!(
        args.args,
        AccelArgsChoice::Classic(ClassicCurveArgs {
            accel: Fixedpt(7),
            power: Fixedpt(8),
            offset: Fixedpt(9),
            output_cap: Fixedpt(10),
        })
    );
}

#[test]
fn assembles_natural_arguments() {
    let args = snapshot().convert_to_accel_args(AccelMode::Natural);
    assert_eq!(
        args.args,
        AccelArgsChoice::Natural(NaturalCurveArgs {
            decay_rate: Fixedpt(11),
            offset: Fixedpt(12),
            limit: Fixedpt(13),
        })
    );
}

#[test]
fn assembles_synchronous_arguments() {
    let args = snapshot().convert_to_accel_args(AccelMode::Synchronous);
    assert_eq!(
        args.args,
        AccelArgsChoice::Synchronous(SynchronousCurveArgs {
            gamma: Fixedpt(14),
            smooth: Fixedpt(15),
            motivity: Fixedpt(16),
            sync_speed: Fixedpt(17),
        })
    );
}

#[test]
fn assembled_variant_matches_the_mode_and_common_fields_are_always_there() {
    for mode in AccelMode::all() {
        let args = snapshot().convert_to_accel_args(mode);
        assert_eq!(args.args.mode(), mode);
        assert_eq!(args.param_sens_mult, Fixedpt(1));
        assert_eq!(args.param_yx_ratio, Fixedpt(2));
        assert_eq!(args.param_input_dpi, Fixedpt(3));
    }
}
