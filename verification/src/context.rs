//! The context of a session: the active mode and the live value of every
//! tracked parameter. It is the one place where these are kept; everything
//! else works on copies taken from it.

use vstd::prelude::*;
use crate::accel_args::AllParamArgs;
use crate::fixedpt::{Fixedpt, spec_to_text};
use crate::params::{AccelMode, Param, ValidationError};
use crate::store::{
    read,
    read_mode,
    write_request,
    mode_write_request,
    spec_mode_text,
    spec_read,
    spec_read_mode,
    StoreError,
    StoreReply,
    StoreWrite,
    WriteReply,
};

verus! {

/// A parameter with its current value.
#[derive(Debug, Clone, Copy, PartialEq, Eq, Structural)]
pub struct Parameter {
    pub tag: Param,
    pub value: Fixedpt,
}

impl Parameter {
    /// The parameter `param` with the value `value`.
    pub fn new(param: Param, value: Fixedpt) -> (r: Self)
        ensures
            r == (Parameter { tag: param, value }),
    {
        Self { tag: param, value }
    }

    /// Builds the parameter from what the store answered for it.
    pub fn from_store(param: Param, replies: &Vec<StoreReply>) -> (r: Result<Parameter, StoreError>)
        ensures
            match r {
                Ok(p) => p.tag == param && spec_read(replies@, param) == Ok::<Fixedpt, StoreError>(
                    p.value,
                ),
                Err(e) => spec_read(replies@, param) == Err::<Fixedpt, StoreError>(e),
            },
    {
        match read(replies, param) {
            Ok(value) => Ok(Self::new(param, value)),
            Err(e) => Err(e),
        }
    }

    /// Takes the value anew from what the store answered. On a failure the
    /// value stays as it was.
    pub fn reset(&mut self, replies: &Vec<StoreReply>) -> (r: Result<(), StoreError>)
        ensures
            final(self).tag == old(self).tag,
            match r {
                Ok(()) => spec_read(replies@, old(self).tag) == Ok::<Fixedpt, StoreError>(
                    final(self).value,
                ),
                Err(e) => spec_read(replies@, old(self).tag) == Err::<Fixedpt, StoreError>(e)
                    && final(self).value == old(self).value,
            },
    {
        match read(replies, self.tag) {
            Ok(value) => {
                self.value = value;
                Ok(())
            },
            Err(e) => Err(e),
        }
    }
}

/// Why an update was not made.
#[derive(Debug, Clone, Copy, PartialEq, Eq, Structural)]
pub enum UpdateError {
    /// The context does not track the parameter.
    UnknownParameter,
    /// The value is outside the parameter's domain.
    Invalid(ValidationError),
    /// The store did not take the value.
    Store(StoreError),
}

impl UpdateError {
    /// The text of the error's message.
    pub open spec fn spec_message(self) -> Seq<char> {
        match self {
            UpdateError::UnknownParameter => "Unknown parameter, cannot update"@,
            UpdateError::Invalid(e) => e.spec_message(),
            UpdateError::Store(e) => e.spec_message(),
        }
    }

    /// The short text shown next to the field that was edited.
    pub fn message(self) -> (r: &'static str)
        ensures
            r@ == self.spec_message(),
    {
        match self {
            UpdateError::UnknownParameter => "Unknown parameter, cannot update",
            UpdateError::Invalid(e) => e.message(),
            UpdateError::Store(e) => e.message(),
        }
    }
}

/// The index of the first entry for `p` at or after `from`, or the length
/// where there is none.
pub open spec fn first_index_from(params: Seq<Parameter>, p: Param, from: int) -> int
    decreases params.len() - from,
{
    if from < 0 || from >= params.len() {
        params.len() as int
    } else if params[from].tag == p {
        from
    } else {
        first_index_from(params, p, from + 1)
    }
}

/// The first index is in range, holds the parameter where it is an index,
/// and nothing before it does.
pub proof fn lemma_first_index(params: Seq<Parameter>, p: Param, from: int)
    requires
        0 <= from <= params.len(),
    ensures
        from <= first_index_from(params, p, from) <= params.len(),
        first_index_from(params, p, from) < params.len() ==> params[first_index_from(
            params,
            p,
            from,
        )].tag == p,
        forall|j: int| from <= j < first_index_from(params, p, from) ==> (#[trigger] params[j]).tag != p,
    decreases params.len() - from,
{
    if from < params.len() && params[from].tag != p {
        lemma_first_index(params, p, from + 1);
    }
}

/// Where the tags are the same, every parameter is found at the same place.
pub proof fn lemma_first_index_by_tags(a: Seq<Parameter>, b: Seq<Parameter>, p: Param, from: int)
    requires
        a.len() == b.len(),
        forall|i: int| 0 <= i < a.len() ==> (#[trigger] a[i]).tag == b[i].tag,
        0 <= from <= a.len(),
    ensures
        first_index_from(a, p, from) == first_index_from(b, p, from),
    decreases a.len() - from,
{
    if from < a.len() {
        assert(a[from].tag == b[from].tag);
        if a[from].tag != p {
            lemma_first_index_by_tags(a, b, p, from + 1);
        }
    }
}

/// An update changes the store and the live value together, or neither.
/// With `r` and `after` as `update_param_value` leaves them: the update
/// succeeds exactly where a write was asked of the store and the store took
/// it; then the live value of the parameter is the value written; in every
/// other case every live value is as it was. The value of every other
/// parameter, and the mode, stay in any case.
pub proof fn lemma_update_is_all_or_nothing(
    before: TuiContext,
    p: Param,
    value: Fixedpt,
    reply: WriteReply,
    after: TuiContext,
    r: Result<(), UpdateError>,
)
    requires
        r == before.spec_update_outcome(p, value, reply),
        r is Ok ==> after.parameters@ == before.parameters@.update(
            before.spec_index(p),
            Parameter { tag: p, value },
        ),
        r is Err ==> after.parameters@ == before.parameters@,
    ensures
        r is Ok <==> before.spec_check_update(p, value) is Ok && reply == WriteReply::Done,
        r is Ok ==> after.spec_value(p) == value,
        r is Err ==> after.spec_value(p) == before.spec_value(p),
        forall|q: Param| q != p ==> after.spec_value(q) == before.spec_value(q),
        forall|q: Param| after.spec_tracks(q) == before.spec_tracks(q),
{
    assert forall|q: Param|
        after.spec_tracks(q) == before.spec_tracks(q) && (q != p || r is Err ==> after.spec_value(q)
            == before.spec_value(q)) by {
        lemma_first_index(before.parameters@, q, 0);
        lemma_first_index(before.parameters@, p, 0);
        lemma_first_index_by_tags(after.parameters@, before.parameters@, q, 0);
    }
    if r is Ok {
        lemma_first_index(before.parameters@, p, 0);
        lemma_first_index_by_tags(after.parameters@, before.parameters@, p, 0);
    }
}

/// A reset leaves every parameter outside the mode's group exactly as it
/// was, whether it succeeds or fails.
pub proof fn lemma_reset_keeps_other_groups(
    before: Seq<Parameter>,
    mode: AccelMode,
    replies: Seq<StoreReply>,
    r: Result<(), StoreError>,
    after: Seq<Parameter>,
)
    requires
        reset_outcome(before, mode, replies, r, after),
    ensures
        after.len() == before.len(),
        forall|i: int|
            0 <= i < before.len() && !(#[trigger] before[i]).tag.spec_belongs_to(mode) ==> after[i]
                == before[i],
{
    assert forall|i: int|
        0 <= i < before.len() && !(#[trigger] before[i]).tag.spec_belongs_to(mode) implies after[i]
        == before[i] by {
        if r is Ok {
            assert(after[i].tag == before[i].tag);
        }
    }
}

/// Whether `p` is in the group of one of the modes.
pub open spec fn relevant(p: Param, selectable: Seq<AccelMode>) -> bool {
    exists|i: int| 0 <= i < selectable.len() && p.spec_belongs_to(#[trigger] selectable[i])
}

/// The parameters that a context tracks when `selectable` are the modes to
/// choose from: those in the group of one of them, in display order.
pub open spec fn spec_tracked(selectable: Seq<AccelMode>) -> Seq<Param> {
    Param::spec_all().filter(|p: Param| relevant(p, selectable))
}

/// What `reads` says of reading `wanted` from `replies`: on success the
/// values, in order; on failure the error of the first read that fails.
pub open spec fn reads_outcome(
    wanted: Seq<Param>,
    replies: Seq<StoreReply>,
    r: Result<Seq<Parameter>, StoreError>,
) -> bool {
    match r {
        Ok(got) => {
            &&& got.len() == wanted.len()
            &&& forall|i: int|
                0 <= i < wanted.len() ==> (#[trigger] got[i]).tag == wanted[i] && spec_read(
                    replies,
                    wanted[i],
                ) == Ok::<Fixedpt, StoreError>(got[i].value)
        },
        Err(e) => exists|k: int|
            {
                &&& 0 <= k < wanted.len()
                &&& spec_read(replies, #[trigger] wanted[k]) == Err::<Fixedpt, StoreError>(e)
                &&& forall|j: int| 0 <= j < k ==> spec_read(replies, #[trigger] wanted[j]) is Ok
            },
    }
}

/// What a reset under `mode` makes of `before`, given the store's answers:
/// on success every parameter of the mode's group has the value read for it
/// and every other parameter is as it was; on failure nothing has changed,
/// and the error is that of the first parameter of the group whose read fails.
pub open spec fn reset_outcome(
    before: Seq<Parameter>,
    mode: AccelMode,
    replies: Seq<StoreReply>,
    r: Result<(), StoreError>,
    after: Seq<Parameter>,
) -> bool {
    match r {
        Ok(()) => {
            &&& after.len() == before.len()
            &&& forall|i: int|
                0 <= i < before.len() ==> {
                    &&& (#[trigger] after[i]).tag == before[i].tag
                    &&& if before[i].tag.spec_belongs_to(mode) {
                        spec_read(replies, before[i].tag) == Ok::<Fixedpt, StoreError>(
                            after[i].value,
                        )
                    } else {
                        after[i].value == before[i].value
                    }
                }
        },
        Err(e) => {
            &&& after == before
            &&& exists|k: int|
                {
                    &&& 0 <= k < before.len()
                    &&& (#[trigger] before[k]).tag.spec_belongs_to(mode)
                    &&& spec_read(replies, before[k].tag) == Err::<Fixedpt, StoreError>(e)
                    &&& forall|j: int|
                        0 <= j < k && (#[trigger] before[j]).tag.spec_belongs_to(mode)
                            ==> spec_read(replies, before[j].tag) is Ok
                }
        },
    }
}

/// The active mode and the live parameter values.
#[derive(Debug)]
pub struct TuiContext {
    pub current_mode: AccelMode,
    pub parameters: Vec<Parameter>,
}

/// What building a context for `selectable` from the store's answers gives.
/// Where the mode cannot be read, that is the error. Otherwise the context
/// has the mode that was read and the tracked parameters with the values
/// read for them, or the error of the first of them whose read fails.
pub open spec fn context_outcome(
    selectable: Seq<AccelMode>,
    replies: Seq<StoreReply>,
    r: Result<TuiContext, StoreError>,
) -> bool {
    match spec_read_mode(replies) {
        Err(e) => r == Err::<TuiContext, StoreError>(e),
        Ok(mode) => match r {
            Ok(ctx) => ctx.current_mode == mode && reads_outcome(
                spec_tracked(selectable),
                replies,
                Ok(ctx.parameters@),
            ),
            Err(e) => reads_outcome(spec_tracked(selectable), replies, Err(e)),
        },
    }
}

impl TuiContext {
    /// Where the parameter is kept, or the number of parameters where it is
    /// not tracked.
    pub open spec fn spec_index(self, p: Param) -> int {
        first_index_from(self.parameters@, p, 0)
    }

    /// Whether the context keeps a value for `p`.
    pub open spec fn spec_tracks(self, p: Param) -> bool {
        self.spec_index(p) < self.parameters@.len()
    }

    /// The live parameter under `p`, if the context tracks it.
    pub open spec fn spec_parameter(self, p: Param) -> Option<Parameter> {
        if self.spec_tracks(p) {
            Some(self.parameters@[self.spec_index(p)])
        } else {
            None
        }
    }

    /// The live value of the parameter; zero where it is not tracked.
    pub open spec fn spec_value(self, p: Param) -> Fixedpt {
        match self.spec_parameter(p) {
            Some(param) => param.value,
            None => Fixedpt(0),
        }
    }

    /// Whether an update of `p` to `value` may go to the store.
    pub open spec fn spec_check_update(self, p: Param, value: Fixedpt) -> Result<(), UpdateError> {
        if !self.spec_tracks(p) {
            Err(UpdateError::UnknownParameter)
        } else {
            match p.spec_validate(value) {
                Err(e) => Err(UpdateError::Invalid(e)),
                Ok(()) => Ok(()),
            }
        }
    }

    /// How an update ends, given what the store answered to the write.
    pub open spec fn spec_update_outcome(self, p: Param, value: Fixedpt, reply: WriteReply) -> Result<
        (),
        UpdateError,
    > {
        match self.spec_check_update(p, value) {
            Err(e) => Err(e),
            Ok(()) => match reply {
                WriteReply::Done => Ok(()),
                WriteReply::Rejected => Err(UpdateError::Store(StoreError::Rejected(p))),
            },
        }
    }

    /// Where the parameter is kept.
    fn index_of(&self, p: Param) -> (r: Option<usize>)
        ensures
            match r {
                Some(i) => i == self.spec_index(p) && self.spec_tracks(p),
                None => !self.spec_tracks(p),
            },
    {
        let mut i: usize = 0;
        while i < self.parameters.len()
            invariant
                0 <= i <= self.parameters@.len(),
                self.spec_index(p) == first_index_from(self.parameters@, p, i as int),
            decreases self.parameters@.len() - i,
        {
            if self.parameters[i].tag == p {
                return Some(i);
            }
            i += 1;
        }
        None
    }

    /// The modes' parameters to read from the store before a context for
    /// `selectable` can be built, in the order in which it will keep them.
    pub fn tracked_params(selectable: &Vec<AccelMode>) -> (r: Vec<Param>)
        ensures
            r@ == spec_tracked(selectable@),
    {
        let all = Param::all();
        let ghost pred = |p: Param| relevant(p, selectable@);
        let mut out: Vec<Param> = Vec::new();
        let mut i: usize = 0;
        proof {
            reveal(Seq::filter);
            assert(all@.take(0) =~= Seq::<Param>::empty());
        }
        while i < all.len()
            invariant
                0 <= i <= all@.len(),
                all@ == Param::spec_all(),
                pred == (|p: Param| relevant(p, selectable@)),
                out@ == all@.take(i as int).filter(pred),
            decreases all@.len() - i,
        {
            let p = all[i];
            let mut found = false;
            let mut k: usize = 0;
            while k < selectable.len()
                invariant
                    0 <= k <= selectable@.len(),
                    found <==> exists|j: int|
                        0 <= j < k && p.spec_belongs_to(#[trigger] selectable@[j]),
                decreases selectable@.len() - k,
            {
                if p.belongs_to(selectable[k]) {
                    found = true;
                }
                k += 1;
            }
            assert(found == relevant(p, selectable@));
            proof {
                reveal(Seq::filter);
                assert(all@.take(i + 1).drop_last() =~= all@.take(i as int));
                assert(all@.take(i + 1).last() == p);
            }
            if found {
                out.push(p);
            }
            i += 1;
        }
        assert(all@.take(all@.len() as int) =~= all@);
        out
    }

    /// Reads `wanted` from the store's answers, all or none.
    fn reads(wanted: &Vec<Param>, replies: &Vec<StoreReply>) -> (r: Result<
        Vec<Parameter>,
        StoreError,
    >)
        ensures
            reads_outcome(
                wanted@,
                replies@,
                match r {
                    Ok(v) => Ok(v@),
                    Err(e) => Err(e),
                },
            ),
    {
        let mut out: Vec<Parameter> = Vec::new();
        let mut i: usize = 0;
        while i < wanted.len()
            invariant
                0 <= i <= wanted@.len(),
                out@.len() == i,
                forall|j: int|
                    0 <= j < i ==> (#[trigger] out@[j]).tag == wanted@[j] && spec_read(
                        replies@,
                        wanted@[j],
                    ) == Ok::<Fixedpt, StoreError>(out@[j].value),
            decreases wanted@.len() - i,
        {
            match Parameter::from_store(wanted[i], replies) {
                Ok(p) => out.push(p),
                Err(e) => {
                    assert(spec_read(replies@, wanted@[i as int]) == Err::<Fixedpt, StoreError>(e));
                    assert forall|j: int| 0 <= j < i implies spec_read(
                        replies@,
                        #[trigger] wanted@[j],
                    ) is Ok by {
                        assert(out@[j].tag == wanted@[j]);
                    }
                    return Err(e);
                },
            }
            i += 1;
        }
        Ok(out)
    }

    /// Builds the context of a session from what the store answered: the
    /// active mode, and the value of every parameter in the group of one of
    /// the `selectable` modes. Any read that fails makes the whole fail, the
    /// mode's first; there is no context with a part missing.
    pub fn new(selectable: &Vec<AccelMode>, replies: &Vec<StoreReply>) -> (r: Result<
        TuiContext,
        StoreError,
    >)
        ensures
            context_outcome(selectable@, replies@, r),
    {
        let mode = match read_mode(replies) {
            Ok(mode) => mode,
            Err(e) => {
                return Err(e);
            },
        };
        let wanted = Self::tracked_params(selectable);
        match Self::reads(&wanted, replies) {
            Ok(parameters) => Ok(TuiContext { current_mode: mode, parameters }),
            Err(e) => Err(e),
        }
    }

    /// The live parameter under `param`, if the context tracks it.
    pub fn parameter(&self, param: Param) -> (r: Option<&Parameter>)
        ensures
            match r {
                Some(p) => self.spec_parameter(param) == Some(*p) && p.tag == param,
                None => self.spec_parameter(param) is None,
            },
    {
        proof {
            lemma_first_index(self.parameters@, param, 0);
        }
        match self.index_of(param) {
            Some(i) => Some(&self.parameters[i]),
            None => None,
        }
    }

    /// Decides whether `value` may become the value of `param_id`, and if so
    /// says what to write to the store: the parameter must be tracked and the
    /// value in its domain.
    pub fn check_update(&self, param_id: Param, value: Fixedpt) -> (r: Result<
        StoreWrite,
        UpdateError,
    >)
        ensures
            match r {
                Ok(w) => self.spec_check_update(param_id, value) is Ok && w.param == param_id
                    && w.text@ == spec_to_text(value),
                Err(e) => self.spec_check_update(param_id, value) == Err::<(), UpdateError>(e),
            },
    {
        if self.index_of(param_id).is_none() {
            return Err(UpdateError::UnknownParameter);
        }
        match param_id.validate(value) {
            Err(e) => Err(UpdateError::Invalid(e)),
            Ok(()) => Ok(write_request(param_id, value)),
        }
    }

    /// Ends an update of `param_id` to `value`, given what the store answered
    /// to the write that `check_update` asked for. The live value changes
    /// only where the update was in order and the store has taken the write;
    /// in every other case the context stays as it was.
    pub fn update_param_value(&mut self, param_id: Param, value: Fixedpt, reply: WriteReply) -> (r:
        Result<(), UpdateError>)
        ensures
            r == old(self).spec_update_outcome(param_id, value, reply),
            final(self).current_mode == old(self).current_mode,
            r is Ok ==> final(self).parameters@ == old(self).parameters@.update(
                old(self).spec_index(param_id),
                Parameter { tag: param_id, value },
            ),
            r is Err ==> final(self).parameters@ == old(self).parameters@,
            r is Ok ==> final(self).spec_value(param_id) == value,
            forall|q: Param| final(self).spec_tracks(q) == old(self).spec_tracks(q),
            forall|q: Param|
                q != param_id ==> final(self).spec_value(q) == old(self).spec_value(q),
    {
        proof {
            lemma_first_index(self.parameters@, param_id, 0);
        }
        let i = match self.index_of(param_id) {
            Some(i) => i,
            None => {
                return Err(UpdateError::UnknownParameter);
            },
        };
        match param_id.validate(value) {
            Err(e) => {
                return Err(UpdateError::Invalid(e));
            },
            Ok(()) => {},
        }
        match reply {
            WriteReply::Rejected => Err(UpdateError::Store(StoreError::Rejected(param_id))),
            WriteReply::Done => {
                self.parameters.set(i, Parameter::new(param_id, value));
                proof {
                    lemma_update_is_all_or_nothing(
                        *old(self),
                        param_id,
                        value,
                        reply,
                        *self,
                        Ok(()),
                    );
                }
                Ok(())
            },
        }
    }

    /// The tracked parameters of `mode`'s group, in the context's order:
    /// what to read from the store before a reset under that mode.
    pub fn params_to_reset(&self, mode: AccelMode) -> (r: Vec<Param>)
        ensures
            r@ == self.parameters@.map_values(|p: Parameter| p.tag).filter(
                |p: Param| p.spec_belongs_to(mode),
            ),
    {
        let ghost tags = self.parameters@.map_values(|p: Parameter| p.tag);
        let ghost pred = |p: Param| p.spec_belongs_to(mode);
        let mut out: Vec<Param> = Vec::new();
        let mut i: usize = 0;
        proof {
            reveal(Seq::filter);
            assert(tags.take(0) =~= Seq::<Param>::empty());
        }
        while i < self.parameters.len()
            invariant
                0 <= i <= self.parameters@.len(),
                tags == self.parameters@.map_values(|p: Parameter| p.tag),
                pred == (|p: Param| p.spec_belongs_to(mode)),
                out@ == tags.take(i as int).filter(pred),
            decreases self.parameters@.len() - i,
        {
            let p = self.parameters[i].tag;
            proof {
                reveal(Seq::filter);
                assert(tags.take(i + 1).drop_last() =~= tags.take(i as int));
                assert(tags.take(i + 1).last() == p);
            }
            if p.belongs_to(mode) {
                out.push(p);
            }
            i += 1;
        }
        assert(tags.take(tags.len() as int) =~= tags);
        out
    }

    /// Takes every parameter of the active mode's group anew from what the
    /// store answered; the others keep their values. If one of the reads
    /// fails, none is applied.
    pub fn reset_current_parameters(&mut self, replies: &Vec<StoreReply>) -> (r: Result<
        (),
        StoreError,
    >)
        ensures
            final(self).current_mode == old(self).current_mode,
            reset_outcome(
                old(self).parameters@,
                old(self).current_mode,
                replies@,
                r,
                final(self).parameters@,
            ),
    {
        let mode = self.current_mode;
        let mut fresh: Vec<Parameter> = Vec::new();
        let mut i: usize = 0;
        while i < self.parameters.len()
            invariant
                0 <= i <= self.parameters@.len(),
                self.parameters@ == old(self).parameters@,
                self.current_mode == old(self).current_mode,
                mode == self.current_mode,
                fresh@.len() == i,
                forall|j: int|
                    0 <= j < i ==> {
                        &&& (#[trigger] fresh@[j]).tag == self.parameters@[j].tag
                        &&& if self.parameters@[j].tag.spec_belongs_to(mode) {
                            spec_read(replies@, self.parameters@[j].tag) == Ok::<
                                Fixedpt,
                                StoreError,
                            >(fresh@[j].value)
                        } else {
                            fresh@[j].value == self.parameters@[j].value
                        }
                    },
            decreases self.parameters@.len() - i,
        {
            let mut p = self.parameters[i];
            if p.tag.belongs_to(mode) {
                match p.reset(replies) {
                    Ok(()) => {},
                    Err(e) => {
                        assert forall|j: int|
                            0 <= j < i && (#[trigger] self.parameters@[j]).tag.spec_belongs_to(
                                mode,
                            ) implies spec_read(replies@, self.parameters@[j].tag) is Ok by {
                            assert(fresh@[j].tag == self.parameters@[j].tag);
                        }
                        assert(self.parameters@[i as int].tag.spec_belongs_to(mode));
                        return Err(e);
                    },
                }
            }
            fresh.push(p);
            i += 1;
        }
        self.parameters = fresh;
        Ok(())
    }

    /// Makes `mode` the active mode, given what the store answered to the
    /// write of the mode and, after it, to the reads of the mode's group. If
    /// the store refused the write, nothing changes. Otherwise the mode
    /// changes, and the parameters are reset under it.
    pub fn set_mode(&mut self, mode: AccelMode, reply: WriteReply, replies: &Vec<StoreReply>) -> (r:
        Result<(), StoreError>)
        ensures
            match reply {
                WriteReply::Rejected => r == Err::<(), StoreError>(
                    StoreError::Rejected(Param::Mode),
                ) && final(self).current_mode == old(self).current_mode
                    && final(self).parameters@ == old(self).parameters@,
                WriteReply::Done => final(self).current_mode == mode && reset_outcome(
                    old(self).parameters@,
                    mode,
                    replies@,
                    r,
                    final(self).parameters@,
                ),
            },
    {
        match reply {
            WriteReply::Rejected => Err(StoreError::Rejected(Param::Mode)),
            WriteReply::Done => {
                self.current_mode = mode;
                self.reset_current_parameters(replies)
            },
        }
    }

    /// The write that makes `mode` the active mode in the store.
    pub fn mode_change_request(mode: AccelMode) -> (r: StoreWrite)
        ensures
            r.param == Param::Mode,
            r.text@ == spec_mode_text(mode),
    {
        mode_write_request(mode)
    }

    fn value_of(&self, p: Param) -> (r: Fixedpt)
        ensures
            r == self.spec_value(p),
    {
        match self.parameter(p) {
            Some(param) => param.value,
            None => Fixedpt(0),
        }
    }

    /// A flat copy of every parameter's live value. A parameter that the
    /// context does not track is zero in it.
    pub fn params_snapshot(&self) -> (r: AllParamArgs)
        ensures
            r.sens_mult == self.spec_value(Param::SensMult),
            r.yx_ratio == self.spec_value(Param::YxRatio),
            r.input_dpi == self.spec_value(Param::InputDpi),
            r.accel_linear == self.spec_value(Param::AccelLinear),
            r.offset_linear == self.spec_value(Param::OffsetLinear),
            r.output_cap_linear == self.spec_value(Param::OutputCapLinear),
            r.accel_classic == self.spec_value(Param::AccelClassic),
            r.power_classic == self.spec_value(Param::PowerClassic),
            r.offset_classic == self.spec_value(Param::OffsetClassic),
            r.output_cap_classic == self.spec_value(Param::OutputCapClassic),
            r.decay_rate == self.spec_value(Param::DecayRate),
            r.offset_natural == self.spec_value(Param::OffsetNatural),
            r.limit == self.spec_value(Param::Limit),
            r.gamma == self.spec_value(Param::Gamma),
            r.smooth == self.spec_value(Param::Smooth),
            r.motivity == self.spec_value(Param::Motivity),
            r.sync_speed == self.spec_value(Param::SyncSpeed),
    {
        AllParamArgs {
            sens_mult: self.value_of(Param::SensMult),
            yx_ratio: self.value_of(Param::YxRatio),
            input_dpi: self.value_of(Param::InputDpi),
            accel_linear: self.value_of(Param::AccelLinear),
            offset_linear: self.value_of(Param::OffsetLinear),
            output_cap_linear: self.value_of(Param::OutputCapLinear),
            accel_classic: self.value_of(Param::AccelClassic),
            power_classic: self.value_of(Param::PowerClassic),
            offset_classic: self.value_of(Param::OffsetClassic),
            output_cap_classic: self.value_of(Param::OutputCapClassic),
            decay_rate: self.value_of(Param::DecayRate),
            offset_natural: self.value_of(Param::OffsetNatural),
            limit: self.value_of(Param::Limit),
            gamma: self.value_of(Param::Gamma),
            smooth: self.value_of(Param::Smooth),
            motivity: self.value_of(Param::Motivity),
            sync_speed: self.value_of(Param::SyncSpeed),
        }
    }
}

/// The one owner of the session's context, handed by reference to whoever
/// needs to read or change it.
#[derive(Debug)]
pub struct ContextRef {
    inner: TuiContext,
}

impl ContextRef {
    /// The context that is owned.
    pub closed spec fn view(&self) -> TuiContext {
        self.inner
    }

    /// Takes ownership of the context.
    pub fn new(value: TuiContext) -> (r: Self)
        ensures
            r@ == value,
    {
        Self { inner: value }
    }

    /// The context, to read.
    pub fn get(&self) -> (r: &TuiContext)
        ensures
            *r == self@,
    {
        &self.inner
    }

    /// The context, to change: what is written through the reference is
    /// what the owner holds afterwards.
    pub fn get_mut(&mut self) -> (r: &mut TuiContext)
        ensures
            *r == old(self)@,
            final(self)@ == *final(r),
    {
        &mut self.inner
    }
}

} // verus!
