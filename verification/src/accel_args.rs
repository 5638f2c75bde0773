//! The argument bundle that the curve engine takes: the common fields and one
//! mode-tagged record, assembled from a flat snapshot of all parameters.

use vstd::prelude::*;
use crate::fixedpt::Fixedpt;
use crate::params::AccelMode;

verus! {

/// A pair of output-to-input speed ratios, as raw fixed-point integers.
#[derive(Debug, Clone, Copy, PartialEq, Eq, Structural)]
pub struct Vector {
    pub x: i64,
    pub y: i64,
}

/// What the linear curve reads.
#[derive(Debug, Clone, Copy, PartialEq, Eq, Structural)]
pub struct LinearCurveArgs {
    pub accel: Fixedpt,
    pub offset: Fixedpt,
    pub output_cap: Fixedpt,
}

/// What the classic curve reads.
#[derive(Debug, Clone, Copy, PartialEq, Eq, Structural)]
pub struct ClassicCurveArgs {
    pub accel: Fixedpt,
    pub power: Fixedpt,
    pub offset: Fixedpt,
    pub output_cap: Fixedpt,
}

/// What the natural curve reads.
#[derive(Debug, Clone, Copy, PartialEq, Eq, Structural)]
pub struct NaturalCurveArgs {
    pub decay_rate: Fixedpt,
    pub offset: Fixedpt,
    pub limit: Fixedpt,
}

/// What the synchronous curve reads.
#[derive(Debug, Clone, Copy, PartialEq, Eq, Structural)]
pub struct SynchronousCurveArgs {
    pub gamma: Fixedpt,
    pub smooth: Fixedpt,
    pub motivity: Fixedpt,
    pub sync_speed: Fixedpt,
}

/// The record of one curve mode, tagged by the mode.
#[derive(Debug, Clone, Copy, PartialEq, Eq, Structural)]
pub enum AccelArgsChoice {
    Linear(LinearCurveArgs),
    Classic(ClassicCurveArgs),
    Natural(NaturalCurveArgs),
    Synchronous(SynchronousCurveArgs),
}

impl AccelArgsChoice {
    /// The mode whose record this is.
    pub open spec fn spec_mode(self) -> AccelMode {
        match self {
            AccelArgsChoice::Linear(_) => AccelMode::Linear,
            AccelArgsChoice::Classic(_) => AccelMode::Classic,
            AccelArgsChoice::Natural(_) => AccelMode::Natural,
            AccelArgsChoice::Synchronous(_) => AccelMode::Synchronous,
        }
    }

    #[verifier::when_used_as_spec(spec_mode)]
    pub fn mode(self) -> (r: AccelMode)
        ensures
            r == self.spec_mode(),
    {
        match self {
            AccelArgsChoice::Linear(_) => AccelMode::Linear,
            AccelArgsChoice::Classic(_) => AccelMode::Classic,
            AccelArgsChoice::Natural(_) => AccelMode::Natural,
            AccelArgsChoice::Synchronous(_) => AccelMode::Synchronous,
        }
    }
}

/// Everything the curve engine needs besides the input speed.
#[derive(Debug, Clone, Copy, PartialEq, Eq, Structural)]
pub struct AccelArgs {
    pub param_sens_mult: Fixedpt,
    pub param_yx_ratio: Fixedpt,
    pub param_input_dpi: Fixedpt,
    pub args: AccelArgsChoice,
}

/// The value of every parameter at one instant, whatever the active mode.
#[derive(Debug, Clone, Copy, PartialEq, Eq, Structural)]
pub struct AllParamArgs {
    pub sens_mult: Fixedpt,
    pub yx_ratio: Fixedpt,
    pub input_dpi: Fixedpt,
    pub accel_linear: Fixedpt,
    pub offset_linear: Fixedpt,
    pub output_cap_linear: Fixedpt,
    pub accel_classic: Fixedpt,
    pub power_classic: Fixedpt,
    pub offset_classic: Fixedpt,
    pub output_cap_classic: Fixedpt,
    pub decay_rate: Fixedpt,
    pub offset_natural: Fixedpt,
    pub limit: Fixedpt,
    pub gamma: Fixedpt,
    pub smooth: Fixedpt,
    pub motivity: Fixedpt,
    pub sync_speed: Fixedpt,
}

impl AllParamArgs {
    /// The record of `mode`, filled from the snapshot's fields of that mode.
    pub open spec fn spec_choice(self, mode: AccelMode) -> AccelArgsChoice {
        match mode {
            AccelMode::Linear => AccelArgsChoice::Linear(
                LinearCurveArgs {
                    accel: self.accel_linear,
                    offset: self.offset_linear,
                    output_cap: self.output_cap_linear,
                },
            ),
            AccelMode::Classic => AccelArgsChoice::Classic(
                ClassicCurveArgs {
                    accel: self.accel_classic,
                    power: self.power_classic,
                    offset: self.offset_classic,
                    output_cap: self.output_cap_classic,
                },
            ),
            AccelMode::Natural => AccelArgsChoice::Natural(
                NaturalCurveArgs {
                    decay_rate: self.decay_rate,
                    offset: self.offset_natural,
                    limit: self.limit,
                },
            ),
            AccelMode::Synchronous => AccelArgsChoice::Synchronous(
                SynchronousCurveArgs {
                    gamma: self.gamma,
                    smooth: self.smooth,
                    motivity: self.motivity,
                    sync_speed: self.sync_speed,
                },
            ),
        }
    }

    /// The bundle for `mode`: the three common fields and the mode's record.
    pub open spec fn spec_accel_args(self, mode: AccelMode) -> AccelArgs {
        AccelArgs {
            param_sens_mult: self.sens_mult,
            param_yx_ratio: self.yx_ratio,
            param_input_dpi: self.input_dpi,
            args: self.spec_choice(mode),
        }
    }

    /// Assembles the bundle that the curve engine takes for `mode`. The common
    /// fields are copied whatever the mode; of the four records exactly the
    /// one of `mode` is filled, and only from that mode's fields.
    pub fn convert_to_accel_args(&self, mode: AccelMode) -> (r: AccelArgs)
        ensures
            r == self.spec_accel_args(mode),
            r.args.spec_mode() == mode,
            r.param_sens_mult == self.sens_mult,
            r.param_yx_ratio == self.yx_ratio,
            r.param_input_dpi == self.input_dpi,
    {
        let args = match mode {
            AccelMode::Linear => AccelArgsChoice::Linear(
                LinearCurveArgs {
                    accel: self.accel_linear,
                    offset: self.offset_linear,
                    output_cap: self.output_cap_linear,
                },
            ),
            AccelMode::Classic => AccelArgsChoice::Classic(
                ClassicCurveArgs {
                    accel: self.accel_classic,
                    power: self.power_classic,
                    offset: self.offset_classic,
                    output_cap: self.output_cap_classic,
                },
            ),
            AccelMode::Natural => AccelArgsChoice::Natural(
                NaturalCurveArgs {
                    decay_rate: self.decay_rate,
                    offset: self.offset_natural,
                    limit: self.limit,
                },
            ),
            AccelMode::Synchronous => AccelArgsChoice::Synchronous(
                SynchronousCurveArgs {
                    gamma: self.gamma,
                    smooth: self.smooth,
                    motivity: self.motivity,
                    sync_speed: self.sync_speed,
                },
            ),
        };
        AccelArgs {
            param_sens_mult: self.sens_mult,
            param_yx_ratio: self.yx_ratio,
            param_input_dpi: self.input_dpi,
            args,
        }
    }
}

/// Whatever the snapshot and the mode, the assembled bundle carries the record
/// of that mode and of no other, and its common fields are the snapshot's.
pub proof fn lemma_assembled_variant_matches_mode(snapshot: AllParamArgs, mode: AccelMode)
    ensures
        snapshot.spec_accel_args(mode).args.spec_mode() == mode,
        (snapshot.spec_accel_args(mode).args is Linear) == (mode == AccelMode::Linear),
        (snapshot.spec_accel_args(mode).args is Classic) == (mode == AccelMode::Classic),
        (snapshot.spec_accel_args(mode).args is Natural) == (mode == AccelMode::Natural),
        (snapshot.spec_accel_args(mode).args is Synchronous) == (mode == AccelMode::Synchronous),
        snapshot.spec_accel_args(mode).param_sens_mult == snapshot.sens_mult,
        snapshot.spec_accel_args(mode).param_yx_ratio == snapshot.yx_ratio,
        snapshot.spec_accel_args(mode).param_input_dpi == snapshot.input_dpi,
{
}

} // verus!
