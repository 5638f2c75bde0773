//! The registry of tunable parameters: which exist, what they are called,
//! which curve modes they belong to, and which values each accepts.

use vstd::prelude::*;
use crate::fixedpt::{Fixedpt, ONE_RAW};

verus! {

/// A family of acceleration curves. Exactly one is active at a time.
#[derive(Debug, Clone, Copy, PartialEq, Eq, Hash, Structural)]
pub enum AccelMode {
    Linear,
    Classic,
    Natural,
    Synchronous,
}

impl AccelMode {
    /// The number under which the parameter store keeps this mode.
    pub open spec fn spec_ordinal(self) -> u8 {
        match self {
            AccelMode::Linear => 0,
            AccelMode::Classic => 1,
            AccelMode::Natural => 2,
            AccelMode::Synchronous => 3,
        }
    }

    /// The mode that the parameter store keeps under a number, if any.
    pub open spec fn spec_from_ordinal(n: u8) -> Option<AccelMode> {
        if n == 0 {
            Some(AccelMode::Linear)
        } else if n == 1 {
            Some(AccelMode::Classic)
        } else if n == 2 {
            Some(AccelMode::Natural)
        } else if n == 3 {
            Some(AccelMode::Synchronous)
        } else {
            None
        }
    }

    #[verifier::when_used_as_spec(spec_ordinal)]
    pub fn ordinal(self) -> (r: u8)
        ensures
            r == self.spec_ordinal(),
    {
        match self {
            AccelMode::Linear => 0,
            AccelMode::Classic => 1,
            AccelMode::Natural => 2,
            AccelMode::Synchronous => 3,
        }
    }

    pub fn from_ordinal(n: u8) -> (r: Option<AccelMode>)
        ensures
            r == AccelMode::spec_from_ordinal(n),
    {
        if n == 0 {
            Some(AccelMode::Linear)
        } else if n == 1 {
            Some(AccelMode::Classic)
        } else if n == 2 {
            Some(AccelMode::Natural)
        } else if n == 3 {
            Some(AccelMode::Synchronous)
        } else {
            None
        }
    }

    /// Every mode, in the order of their ordinals.
    pub open spec fn spec_all() -> Seq<AccelMode> {
        seq![AccelMode::Linear, AccelMode::Classic, AccelMode::Natural, AccelMode::Synchronous]
    }

    pub fn all() -> (r: Vec<AccelMode>)
        ensures
            r@ == AccelMode::spec_all(),
    {
        vec![AccelMode::Linear, AccelMode::Classic, AccelMode::Natural, AccelMode::Synchronous]
    }

    /// The parameters that only this mode's curve reads, in display order.
    pub open spec fn spec_own_params(self) -> Seq<Param> {
        match self {
            AccelMode::Linear => seq![
                Param::AccelLinear,
                Param::OffsetLinear,
                Param::OutputCapLinear,
            ],
            AccelMode::Classic => seq![
                Param::AccelClassic,
                Param::PowerClassic,
                Param::OffsetClassic,
                Param::OutputCapClassic,
            ],
            AccelMode::Natural => seq![Param::DecayRate, Param::OffsetNatural, Param::Limit],
            AccelMode::Synchronous => seq![
                Param::Gamma,
                Param::Smooth,
                Param::Motivity,
                Param::SyncSpeed,
            ],
        }
    }

    pub fn own_params(self) -> (r: Vec<Param>)
        ensures
            r@ == self.spec_own_params(),
    {
        match self {
            AccelMode::Linear => vec![
                Param::AccelLinear,
                Param::OffsetLinear,
                Param::OutputCapLinear,
            ],
            AccelMode::Classic => vec![
                Param::AccelClassic,
                Param::PowerClassic,
                Param::OffsetClassic,
                Param::OutputCapClassic,
            ],
            AccelMode::Natural => vec![Param::DecayRate, Param::OffsetNatural, Param::Limit],
            AccelMode::Synchronous => vec![
                Param::Gamma,
                Param::Smooth,
                Param::Motivity,
                Param::SyncSpeed,
            ],
        }
    }
}

/// The identifier of one value kept in the parameter store.
#[derive(Debug, Clone, Copy, PartialEq, Eq, Hash, Structural)]
pub enum Param {
    SensMult,
    YxRatio,
    InputDpi,
    AccelLinear,
    OffsetLinear,
    OutputCapLinear,
    AccelClassic,
    PowerClassic,
    OffsetClassic,
    OutputCapClassic,
    DecayRate,
    OffsetNatural,
    Limit,
    Gamma,
    Smooth,
    Motivity,
    SyncSpeed,
    /// The selector of the active curve mode; it belongs to no mode's group.
    Mode,
}

/// Why a value is outside a parameter's domain.
#[derive(Debug, Clone, Copy, PartialEq, Eq, Structural)]
pub enum ValidationError {
    NegativeOffset,
    NegativeDecayRate,
    LimitBelowOne,
}

impl ValidationError {
    /// The text of the error's message.
    pub open spec fn spec_message(self) -> Seq<char> {
        match self {
            ValidationError::NegativeOffset => "offset cannot be less than 0"@,
            ValidationError::NegativeDecayRate => "decay rate cannot be less than 0"@,
            ValidationError::LimitBelowOne => "limit cannot be less than 1"@,
        }
    }

    /// The short text shown next to the field that was edited.
    pub fn message(self) -> (r: &'static str)
        ensures
            r@ == self.spec_message(),
    {
        match self {
            ValidationError::NegativeOffset => "offset cannot be less than 0",
            ValidationError::NegativeDecayRate => "decay rate cannot be less than 0",
            ValidationError::LimitBelowOne => "limit cannot be less than 1",
        }
    }
}

impl Param {
    /// The name under which the parameter store keeps the value.
    pub open spec fn spec_name(self) -> Seq<char> {
        match self {
            Param::SensMult => "SENS_MULT"@,
            Param::YxRatio => "YX_RATIO"@,
            Param::InputDpi => "INPUT_DPI"@,
            Param::AccelLinear => "ACCEL_LINEAR"@,
            Param::OffsetLinear => "OFFSET_LINEAR"@,
            Param::OutputCapLinear => "OUTPUT_CAP_LINEAR"@,
            Param::AccelClassic => "ACCEL_CLASSIC"@,
            Param::PowerClassic => "POWER_CLASSIC"@,
            Param::OffsetClassic => "OFFSET_CLASSIC"@,
            Param::OutputCapClassic => "OUTPUT_CAP_CLASSIC"@,
            Param::DecayRate => "DECAY_RATE"@,
            Param::OffsetNatural => "OFFSET_NATURAL"@,
            Param::Limit => "LIMIT"@,
            Param::Gamma => "GAMMA"@,
            Param::Smooth => "SMOOTH"@,
            Param::Motivity => "MOTIVITY"@,
            Param::SyncSpeed => "SYNC_SPEED"@,
            Param::Mode => "MODE"@,
        }
    }

    pub fn name(self) -> (r: &'static str)
        ensures
            r@ == self.spec_name(),
    {
        match self {
            Param::SensMult => "SENS_MULT",
            Param::YxRatio => "YX_RATIO",
            Param::InputDpi => "INPUT_DPI",
            Param::AccelLinear => "ACCEL_LINEAR",
            Param::OffsetLinear => "OFFSET_LINEAR",
            Param::OutputCapLinear => "OUTPUT_CAP_LINEAR",
            Param::AccelClassic => "ACCEL_CLASSIC",
            Param::PowerClassic => "POWER_CLASSIC",
            Param::OffsetClassic => "OFFSET_CLASSIC",
            Param::OutputCapClassic => "OUTPUT_CAP_CLASSIC",
            Param::DecayRate => "DECAY_RATE",
            Param::OffsetNatural => "OFFSET_NATURAL",
            Param::Limit => "LIMIT",
            Param::Gamma => "GAMMA",
            Param::Smooth => "SMOOTH",
            Param::Motivity => "MOTIVITY",
            Param::SyncSpeed => "SYNC_SPEED",
            Param::Mode => "MODE",
        }
    }

    /// The label under which the parameter is shown.
    pub open spec fn spec_display_name(self) -> Seq<char> {
        match self {
            Param::SensMult => "Sens-Multiplier"@,
            Param::YxRatio => "Y/x Ratio"@,
            Param::InputDpi => "Input DPI"@,
            Param::AccelLinear | Param::AccelClassic => "Accel"@,
            Param::OffsetLinear | Param::OffsetClassic | Param::OffsetNatural => "Offset"@,
            Param::OutputCapLinear | Param::OutputCapClassic => "Output-Cap"@,
            Param::PowerClassic => "Power"@,
            Param::DecayRate => "Decay-Rate"@,
            Param::Limit => "Limit"@,
            Param::Gamma => "Gamma"@,
            Param::Smooth => "Smooth"@,
            Param::Motivity => "Motivity"@,
            Param::SyncSpeed => "Sync-Speed"@,
            Param::Mode => "Mode"@,
        }
    }

    pub fn display_name(self) -> (r: &'static str)
        ensures
            r@ == self.spec_display_name(),
    {
        match self {
            Param::SensMult => "Sens-Multiplier",
            Param::YxRatio => "Y/x Ratio",
            Param::InputDpi => "Input DPI",
            Param::AccelLinear | Param::AccelClassic => "Accel",
            Param::OffsetLinear | Param::OffsetClassic | Param::OffsetNatural => "Offset",
            Param::OutputCapLinear | Param::OutputCapClassic => "Output-Cap",
            Param::PowerClassic => "Power",
            Param::DecayRate => "Decay-Rate",
            Param::Limit => "Limit",
            Param::Gamma => "Gamma",
            Param::Smooth => "Smooth",
            Param::Motivity => "Motivity",
            Param::SyncSpeed => "Sync-Speed",
            Param::Mode => "Mode",
        }
    }

    /// Whether every mode's curve reads the parameter.
    pub open spec fn spec_is_common(self) -> bool {
        self == Param::SensMult || self == Param::YxRatio || self == Param::InputDpi
    }

    #[verifier::when_used_as_spec(spec_is_common)]
    pub fn is_common(self) -> (r: bool)
        ensures
            r == self.spec_is_common(),
    {
        match self {
            Param::SensMult | Param::YxRatio | Param::InputDpi => true,
            _ => false,
        }
    }

    /// Whether the parameter is in `mode`'s group: it is common to all modes,
    /// or one of the mode's own.
    pub open spec fn spec_belongs_to(self, mode: AccelMode) -> bool {
        self.spec_is_common() || mode.spec_own_params().contains(self)
    }

    #[verifier::when_used_as_spec(spec_belongs_to)]
    pub fn belongs_to(self, mode: AccelMode) -> (r: bool)
        ensures
            r == self.spec_belongs_to(mode),
    {
        let r = match self {
            Param::SensMult | Param::YxRatio | Param::InputDpi => true,
            Param::AccelLinear | Param::OffsetLinear | Param::OutputCapLinear => mode
                == AccelMode::Linear,
            Param::AccelClassic
            | Param::PowerClassic
            | Param::OffsetClassic
            | Param::OutputCapClassic => mode == AccelMode::Classic,
            Param::DecayRate | Param::OffsetNatural | Param::Limit => mode == AccelMode::Natural,
            Param::Gamma | Param::Smooth | Param::Motivity | Param::SyncSpeed => mode
                == AccelMode::Synchronous,
            Param::Mode => false,
        };
        proof {
            lemma_own_params_members(self, mode);
        }
        r
    }

    /// The set of modes whose group holds the parameter.
    pub open spec fn group_of(self) -> Set<AccelMode> {
        Set::new(|mode: AccelMode| self.spec_belongs_to(mode))
    }

    /// The modes whose group holds the parameter, in the order of their ordinals.
    pub open spec fn spec_modes(self) -> Seq<AccelMode> {
        match self {
            Param::SensMult | Param::YxRatio | Param::InputDpi => AccelMode::spec_all(),
            Param::AccelLinear | Param::OffsetLinear | Param::OutputCapLinear => seq![
                AccelMode::Linear,
            ],
            Param::AccelClassic
            | Param::PowerClassic
            | Param::OffsetClassic
            | Param::OutputCapClassic => seq![AccelMode::Classic],
            Param::DecayRate | Param::OffsetNatural | Param::Limit => seq![AccelMode::Natural],
            Param::Gamma | Param::Smooth | Param::Motivity | Param::SyncSpeed => seq![
                AccelMode::Synchronous,
            ],
            Param::Mode => Seq::empty(),
        }
    }

    pub fn modes(self) -> (r: Vec<AccelMode>)
        ensures
            r@ == self.spec_modes(),
            r@.to_set() == self.group_of(),
    {
        let r = match self {
            Param::SensMult | Param::YxRatio | Param::InputDpi => AccelMode::all(),
            Param::AccelLinear | Param::OffsetLinear | Param::OutputCapLinear => vec![
                AccelMode::Linear,
            ],
            Param::AccelClassic
            | Param::PowerClassic
            | Param::OffsetClassic
            | Param::OutputCapClassic => vec![AccelMode::Classic],
            Param::DecayRate | Param::OffsetNatural | Param::Limit => vec![AccelMode::Natural],
            Param::Gamma | Param::Smooth | Param::Motivity | Param::SyncSpeed => vec![
                AccelMode::Synchronous,
            ],
            Param::Mode => Vec::new(),
        };
        proof {
            assert(r@ =~= self.spec_modes());
            lemma_modes_are_group(self);
        }
        r
    }

    /// What a value of the parameter must satisfy, as the reason it fails, if it does.
    pub open spec fn spec_validate(self, value: Fixedpt) -> Result<(), ValidationError> {
        match self {
            Param::OffsetLinear | Param::OffsetClassic | Param::OffsetNatural => if value.raw() < 0 {
                Err(ValidationError::NegativeOffset)
            } else {
                Ok(())
            },
            Param::DecayRate => if value.raw() < 0 {
                Err(ValidationError::NegativeDecayRate)
            } else {
                Ok(())
            },
            Param::Limit => if value.raw() < Fixedpt::one().raw() {
                Err(ValidationError::LimitBelowOne)
            } else {
                Ok(())
            },
            _ => Ok(()),
        }
    }

    /// Checks a value against the parameter's domain: an offset and the decay
    /// rate may not be negative, the limit may not be below one, and every
    /// other parameter takes any value.
    pub fn validate(self, value: Fixedpt) -> (r: Result<(), ValidationError>)
        ensures
            r == self.spec_validate(value),
    {
        match self {
            Param::OffsetLinear | Param::OffsetClassic | Param::OffsetNatural => {
                if value.0 < 0 {
                    Err(ValidationError::NegativeOffset)
                } else {
                    Ok(())
                }
            },
            Param::DecayRate => {
                if value.0 < 0 {
                    Err(ValidationError::NegativeDecayRate)
                } else {
                    Ok(())
                }
            },
            Param::Limit => {
                if value.0 < ONE_RAW {
                    Err(ValidationError::LimitBelowOne)
                } else {
                    Ok(())
                }
            },
            _ => Ok(()),
        }
    }

    /// Every parameter that a context can track, in display order: the common
    /// ones, then each mode's own.
    pub open spec fn spec_all() -> Seq<Param> {
        spec_common_params() + AccelMode::Linear.spec_own_params()
            + AccelMode::Classic.spec_own_params() + AccelMode::Natural.spec_own_params()
            + AccelMode::Synchronous.spec_own_params()
    }

    pub fn all() -> (r: Vec<Param>)
        ensures
            r@ == Param::spec_all(),
    {
        let r = vec![
            Param::SensMult,
            Param::YxRatio,
            Param::InputDpi,
            Param::AccelLinear,
            Param::OffsetLinear,
            Param::OutputCapLinear,
            Param::AccelClassic,
            Param::PowerClassic,
            Param::OffsetClassic,
            Param::OutputCapClassic,
            Param::DecayRate,
            Param::OffsetNatural,
            Param::Limit,
            Param::Gamma,
            Param::Smooth,
            Param::Motivity,
            Param::SyncSpeed,
        ];
        assert(r@ =~= Param::spec_all());
        r
    }
}

/// The parameters that every mode's curve reads.
pub open spec fn spec_common_params() -> Seq<Param> {
    seq![Param::SensMult, Param::YxRatio, Param::InputDpi]
}

pub fn common_params() -> (r: Vec<Param>)
    ensures
        r@ == spec_common_params(),
{
    vec![Param::SensMult, Param::YxRatio, Param::InputDpi]
}

/// Membership in a mode's own list, parameter by parameter.
pub proof fn lemma_own_params_members(p: Param, mode: AccelMode)
    ensures
        mode.spec_own_params().contains(p) <==> match p {
            Param::AccelLinear | Param::OffsetLinear | Param::OutputCapLinear => mode
                == AccelMode::Linear,
            Param::AccelClassic
            | Param::PowerClassic
            | Param::OffsetClassic
            | Param::OutputCapClassic => mode == AccelMode::Classic,
            Param::DecayRate | Param::OffsetNatural | Param::Limit => mode == AccelMode::Natural,
            Param::Gamma | Param::Smooth | Param::Motivity | Param::SyncSpeed => mode
                == AccelMode::Synchronous,
            _ => false,
        },
{
    let s = mode.spec_own_params();
    if s.contains(p) {
        let k = choose|k: int| 0 <= k < s.len() && s[k] == p;
        assert(s[k] == p);
    }
    match mode {
        AccelMode::Linear => {
            assert(s[0] == Param::AccelLinear);
            assert(s[1] == Param::OffsetLinear);
            assert(s[2] == Param::OutputCapLinear);
        },
        AccelMode::Classic => {
            assert(s[0] == Param::AccelClassic);
            assert(s[1] == Param::PowerClassic);
            assert(s[2] == Param::OffsetClassic);
            assert(s[3] == Param::OutputCapClassic);
        },
        AccelMode::Natural => {
            assert(s[0] == Param::DecayRate);
            assert(s[1] == Param::OffsetNatural);
            assert(s[2] == Param::Limit);
        },
        AccelMode::Synchronous => {
            assert(s[0] == Param::Gamma);
            assert(s[1] == Param::Smooth);
            assert(s[2] == Param::Motivity);
            assert(s[3] == Param::SyncSpeed);
        },
    }
}

/// A value is rejected exactly where it is below the bound of the
/// parameter's class: below zero for an offset and for the decay rate, below
/// one for the limit. A parameter of any other class takes every value.
pub proof fn lemma_validate_rejects_exactly_below_bound(p: Param, value: Fixedpt)
    ensures
        p.spec_validate(value) is Err <==> {
            ||| (p == Param::OffsetLinear || p == Param::OffsetClassic || p == Param::OffsetNatural
                || p == Param::DecayRate) && value.raw() < 0
            ||| p == Param::Limit && value.raw() < Fixedpt::one().raw()
        },
{
}

/// A parameter's list of modes holds exactly the modes of its group.
pub proof fn lemma_modes_are_group(p: Param)
    ensures
        p.spec_modes().to_set() == p.group_of(),
        forall|mode: AccelMode| p.spec_modes().contains(mode) <==> p.spec_belongs_to(mode),
{
    let s = p.spec_modes();
    assert forall|mode: AccelMode| s.contains(mode) <==> p.spec_belongs_to(mode) by {
        lemma_own_params_members(p, mode);
        if s.contains(mode) {
            let k = choose|k: int| 0 <= k < s.len() && s[k] == mode;
            assert(s[k] == mode);
        }
        if p.spec_belongs_to(mode) {
            if p.spec_is_common() {
                assert(s[mode.spec_ordinal() as int] == mode);
            } else {
                assert(s[0] == mode);
            }
        }
    }
    assert(s.to_set() =~= p.group_of());
}

} // verus!
