//! Sequence execution and the release-all recovery sweep, as decisions apart
//! from the platform: each run hands out the next platform call, is told how
//! that call went, and decides what comes next. The caller performs the calls,
//! strictly one after another.
use vstd::prelude::*;

use crate::actions::{first_long_wait, total_wait, validation_message, validation_outcome, Action, SequenceValidator, ValidationError};
use crate::keys::{all_keys, catalog, map_key_to_vk, vk_code, Key};

verus! {

/// One call of the platform input facility.
#[derive(Clone, Copy, Debug, PartialEq, Eq, Structural)]
pub enum PlatformCall {
    /// Assert the key with this virtual-key code.
    Press(u16),
    /// Release the key with this virtual-key code.
    Release(u16),
    /// Suspend the calling context for this many milliseconds, on a monotonic clock.
    Sleep(u32),
}

/// The failures the engine reports to its callers.
#[derive(Debug)]
pub enum EngineError {
    /// The sequence broke a bound; nothing was performed.
    Validation(ValidationError),
    /// The platform declined a key event; carries the platform's detail.
    Injection(String),
    /// The platform has no injection capability; nothing was attempted.
    Unavailable,
}

/// The human-readable detail of an engine error.
pub open spec fn engine_message(e: EngineError) -> Seq<char> {
    match e {
        EngineError::Validation(v) => validation_message(v),
        EngineError::Injection(detail) => detail@,
        EngineError::Unavailable => "Engine unavailable on this platform"@,
    }
}

impl EngineError {
    /// The human-readable detail of the error.
    pub fn message(&self) -> (r: String)
        ensures
            r@ == engine_message(*self),
    {
        match self {
            EngineError::Validation(v) => v.message(),
            EngineError::Injection(detail) => detail.clone(),
            EngineError::Unavailable => String::from_str("Engine unavailable on this platform"),
        }
    }
}

/// The platform calls that perform one action.
pub open spec fn calls_of(a: Action) -> Seq<PlatformCall> {
    match a {
        Action::KeyDown(k) => seq![PlatformCall::Press(vk_code(k))],
        Action::KeyUp(k) => seq![PlatformCall::Release(vk_code(k))],
        Action::KeyTap(k) => seq![PlatformCall::Press(vk_code(k)), PlatformCall::Release(vk_code(k))],
        Action::Wait(ms) => seq![PlatformCall::Sleep(ms)],
    }
}

/// The platform calls that perform a sequence: those of each action, in list order.
pub open spec fn planned_calls(s: Seq<Action>) -> Seq<PlatformCall>
    decreases s.len(),
{
    if s.len() == 0 {
        Seq::empty()
    } else {
        planned_calls(s.drop_last()) + calls_of(s.last())
    }
}

/// Planning keeps list order: the plan of two sequences one after the other is
/// the plan of the first followed by the plan of the second.
pub proof fn lemma_plan_keeps_order(a: Seq<Action>, b: Seq<Action>)
    ensures
        planned_calls(a + b) == planned_calls(a) + planned_calls(b),
    decreases b.len(),
{
    if b.len() == 0 {
        assert(a + b =~= a);
        assert(planned_calls(a) + planned_calls(b) =~= planned_calls(a));
    } else {
        assert((a + b).drop_last() =~= a + b.drop_last());
        assert((a + b).last() == b.last());
        lemma_plan_keeps_order(a, b.drop_last());
        assert(planned_calls(a) + planned_calls(b) =~= planned_calls(a) + planned_calls(b.drop_last())
            + calls_of(b.last()));
    }
}

/// The empty sequence validates and plans no platform call.
pub proof fn lemma_empty_sequence_is_no_op()
    ensures
        validation_outcome(Seq::<Action>::empty()) == Ok::<(), ValidationError>(()),
        planned_calls(Seq::<Action>::empty()).len() == 0,
{
}

/// The plan of a one-action sequence is that action's calls, and a single
/// key action is always within bounds.
proof fn lemma_single_action(a: Action)
    ensures
        planned_calls(seq![a]) == calls_of(a),
        !(a is Wait) ==> validation_outcome(seq![a]) == Ok::<(), ValidationError>(()),
{
    let s = seq![a];
    assert(s.drop_last() =~= Seq::<Action>::empty());
    assert(s.last() == a);
    assert(planned_calls(s.drop_last()) =~= Seq::<PlatformCall>::empty());
    assert(first_long_wait(s.drop_last()) is None);
    assert(total_wait(s.drop_last()) == 0);
    assert(Seq::<PlatformCall>::empty() + calls_of(a) =~= calls_of(a));
}

/// Translates each action to its platform calls, in list order.
pub fn plan_calls(actions: &[Action]) -> (r: Vec<PlatformCall>)
    ensures
        r@ == planned_calls(actions@),
{
    let mut calls: Vec<PlatformCall> = Vec::new();
    let mut i: usize = 0;
    while i < actions.len()
        invariant
            i <= actions@.len(),
            calls@ == planned_calls(actions@.take(i as int)),
        decreases actions@.len() - i,
    {
        assert(actions@.take(i + 1).drop_last() =~= actions@.take(i as int));
        match actions[i] {
            Action::KeyDown(k) => calls.push(PlatformCall::Press(map_key_to_vk(k))),
            Action::KeyUp(k) => calls.push(PlatformCall::Release(map_key_to_vk(k))),
            Action::KeyTap(k) => {
                let vk = map_key_to_vk(k);
                calls.push(PlatformCall::Press(vk));
                calls.push(PlatformCall::Release(vk));
            },
            Action::Wait(ms) => calls.push(PlatformCall::Sleep(ms)),
        }
        i = i + 1;
        assert(calls@ =~= planned_calls(actions@.take(i as int)));
    }
    assert(actions@.take(actions@.len() as int) =~= actions@);
    calls
}

/// A sequence in execution: the planned platform calls, how many of them were
/// performed, and the failure that stopped the run, if one did.
pub struct SequenceRun {
    calls: Vec<PlatformCall>,
    performed: usize,
    failure: Option<String>,
}

/// The call to perform next: the first not yet performed, unless the run
/// failed or is complete.
pub open spec fn run_next_call(planned: Seq<PlatformCall>, performed: nat, failure: Option<String>) -> Option<PlatformCall> {
    if failure is None && performed < planned.len() {
        Some(planned[performed as int])
    } else {
        None
    }
}

/// How a run ends: with the failure of the call that stopped it, with success
/// once every planned call was performed, or not yet.
pub open spec fn run_outcome(planned: Seq<PlatformCall>, performed: nat, failure: Option<String>) -> Option<Result<(), EngineError>> {
    match failure {
        Some(detail) => Some(Err(EngineError::Injection(detail))),
        None => if performed == planned.len() {
            Some(Ok(()))
        } else {
            None
        },
    }
}

/// The run's progress after it is told how the call it handed out went: a
/// success moves on to the next call, a failure stops the run. With no call
/// outstanding nothing changes.
pub open spec fn run_record(
    planned: Seq<PlatformCall>,
    performed: nat,
    failure: Option<String>,
    outcome: Result<(), String>,
) -> (nat, Option<String>) {
    if run_next_call(planned, performed, failure) is Some {
        match outcome {
            Ok(()) => (performed + 1, None),
            Err(detail) => (performed, Some(detail)),
        }
    } else {
        (performed, failure)
    }
}

/// The progress of a fresh run of `planned` after it was told `outcomes`, one
/// per call it handed out.
pub open spec fn run_after(planned: Seq<PlatformCall>, outcomes: Seq<Result<(), String>>) -> (nat, Option<String>)
    decreases outcomes.len(),
{
    if outcomes.len() == 0 {
        (0, None)
    } else {
        let (performed, failure) = run_after(planned, outcomes.drop_last());
        run_record(planned, performed, failure, outcomes.last())
    }
}

/// The calls a fresh run of `planned` hands out, in order, while it is told `outcomes`.
pub open spec fn calls_handed_out(planned: Seq<PlatformCall>, outcomes: Seq<Result<(), String>>) -> Seq<PlatformCall>
    decreases outcomes.len(),
{
    if outcomes.len() == 0 {
        Seq::empty()
    } else {
        let before = calls_handed_out(planned, outcomes.drop_last());
        let (performed, failure) = run_after(planned, outcomes.drop_last());
        match run_next_call(planned, performed, failure) {
            Some(call) => before.push(call),
            None => before,
        }
    }
}

/// What a run hands out is always the start of its plan, with no call skipped
/// or reordered, however the calls go.
proof fn lemma_handed_out_is_plan_prefix(planned: Seq<PlatformCall>, outcomes: Seq<Result<(), String>>)
    ensures
        ({
            let (performed, failure) = run_after(planned, outcomes);
            let n: int = if failure is Some { performed + 1int } else { performed as int };
            &&& n <= planned.len()
            &&& calls_handed_out(planned, outcomes) == planned.take(n)
            &&& (forall|i: int| 0 <= i < outcomes.len() ==> #[trigger] outcomes[i] is Ok) ==> {
                &&& failure is None
                &&& performed == if outcomes.len() < planned.len() { outcomes.len() } else { planned.len() }
            }
        }),
    decreases outcomes.len(),
{
    if outcomes.len() > 0 {
        let prev = outcomes.drop_last();
        lemma_handed_out_is_plan_prefix(planned, prev);
        let (performed, failure) = run_after(planned, prev);
        if run_next_call(planned, performed, failure) is Some {
            assert(planned.take(performed as int).push(planned[performed as int]) =~= planned.take(performed + 1 as int));
        }
        if forall|i: int| 0 <= i < outcomes.len() ==> #[trigger] outcomes[i] is Ok {
            assert forall|i: int| 0 <= i < prev.len() implies #[trigger] prev[i] is Ok by {
                assert(prev[i] == outcomes[i]);
            }
            assert(outcomes[outcomes.len() - 1] is Ok);
        }
    } else {
        assert(planned.take(0) =~= Seq::<PlatformCall>::empty());
    }
}

/// A run performs its plan in order: whatever the outcomes, the calls it hands
/// out are the first calls of the plan, in plan order; and when every call
/// succeeds, it hands out the whole plan and ends in success.
pub proof fn lemma_run_follows_plan(planned: Seq<PlatformCall>, outcomes: Seq<Result<(), String>>)
    ensures
        calls_handed_out(planned, outcomes).len() <= planned.len(),
        calls_handed_out(planned, outcomes) == planned.take(calls_handed_out(planned, outcomes).len() as int),
        (forall|i: int| 0 <= i < outcomes.len() ==> #[trigger] outcomes[i] is Ok) && outcomes.len() >= planned.len() ==> {
            &&& calls_handed_out(planned, outcomes) == planned
            &&& run_outcome(planned, run_after(planned, outcomes).0, run_after(planned, outcomes).1)
                == Some(Ok::<(), EngineError>(()))
        },
{
    lemma_handed_out_is_plan_prefix(planned, outcomes);
    assert(planned.take(planned.len() as int) =~= planned);
}

impl SequenceRun {
    /// The platform calls of the run, in order.
    pub closed spec fn planned(&self) -> Seq<PlatformCall> {
        self.calls@
    }

    /// How many planned calls were performed.
    pub closed spec fn performed(&self) -> nat {
        self.performed as nat
    }

    /// The detail of the failure that stopped the run.
    pub closed spec fn failure(&self) -> Option<String> {
        self.failure
    }

    #[verifier::type_invariant]
    spec fn inv(&self) -> bool {
        &&& self.performed <= self.calls@.len()
        &&& self.failure is Some ==> self.performed < self.calls@.len()
    }

    /// A run of the given calls that has performed none of them.
    pub fn new(calls: Vec<PlatformCall>) -> (r: SequenceRun)
        ensures
            r.planned() == calls@,
            r.performed() == 0,
            r.failure() is None,
    {
        SequenceRun { calls, performed: 0, failure: None }
    }

    /// The platform call to perform next; `None` once the run is over.
    pub fn next_call(&self) -> (r: Option<PlatformCall>)
        ensures
            r == run_next_call(self.planned(), self.performed(), self.failure()),
    {
        if self.failure.is_none() && self.performed < self.calls.len() {
            Some(self.calls[self.performed])
        } else {
            None
        }
    }

    /// Records how the call handed out by `next_call` went. A success moves on
    /// to the next call; a failure stops the run, and nothing after it is
    /// performed. Outside a run in progress nothing changes.
    pub fn record(&mut self, outcome: Result<(), String>)
        ensures
            final(self).planned() == old(self).planned(),
            (final(self).performed(), final(self).failure())
                == run_record(old(self).planned(), old(self).performed(), old(self).failure(), outcome),
    {
        proof {
            use_type_invariant(&*self);
        }
        if self.failure.is_none() && self.performed < self.calls.len() {
            match outcome {
                Ok(()) => {
                    self.performed = self.performed + 1;
                },
                Err(detail) => {
                    self.failure = Some(detail);
                },
            }
        }
    }

    /// How the run ended; `None` while calls remain to perform.
    pub fn outcome(&self) -> (r: Option<Result<(), EngineError>>)
        ensures
            r == run_outcome(self.planned(), self.performed(), self.failure()),
    {
        match &self.failure {
            Some(detail) => Some(Err(EngineError::Injection(detail.clone()))),
            None => if self.performed == self.calls.len() {
                Some(Ok(()))
            } else {
                None
            },
        }
    }
}

/// What starting a sequence amounts to: nothing is attempted where the platform
/// has no injection capability, nor for a sequence that breaks a bound;
/// otherwise a run of its planned calls.
pub open spec fn sequence_start(available: bool, s: Seq<Action>) -> Result<Seq<PlatformCall>, EngineError> {
    if !available {
        Err(EngineError::Unavailable)
    } else {
        match validation_outcome(s) {
            Err(e) => Err(EngineError::Validation(e)),
            Ok(()) => Ok(planned_calls(s)),
        }
    }
}

/// Whether `r` is a fresh run of `planned`, or the error, as `start` says.
pub open spec fn starts_as(r: Result<SequenceRun, EngineError>, start: Result<Seq<PlatformCall>, EngineError>) -> bool {
    match start {
        Ok(planned) => r matches Ok(run) && run.planned() == planned && run.performed() == 0 && run.failure() is None,
        Err(e) => r == Err::<SequenceRun, EngineError>(e),
    }
}

/// Starts a sequence: checks the platform's capability first, then validates
/// the whole sequence, and only then plans its calls (all or nothing).
pub fn send_sequence(available: bool, actions: Vec<Action>) -> (r: Result<SequenceRun, EngineError>)
    ensures
        starts_as(r, sequence_start(available, actions@)),
{
    if !available {
        return Err(EngineError::Unavailable);
    }
    match SequenceValidator::validate(actions.as_slice()) {
        Err(e) => Err(EngineError::Validation(e)),
        Ok(()) => Ok(SequenceRun::new(plan_calls(actions.as_slice()))),
    }
}

/// Starts asserting one key: the sequence of that one action.
pub fn send_key_down(available: bool, key: Key) -> (r: Result<SequenceRun, EngineError>)
    ensures
        starts_as(r, sequence_start(available, seq![Action::KeyDown(key)])),
        available ==> (r matches Ok(run) && run.planned() == seq![PlatformCall::Press(vk_code(key))]),
{
    let actions = vec![Action::KeyDown(key)];
    proof {
        lemma_single_action(Action::KeyDown(key));
        assert(actions@ =~= seq![Action::KeyDown(key)]);
    }
    let r = send_sequence(available, actions);
    r
}

/// Starts releasing one key: the sequence of that one action.
pub fn send_key_up(available: bool, key: Key) -> (r: Result<SequenceRun, EngineError>)
    ensures
        starts_as(r, sequence_start(available, seq![Action::KeyUp(key)])),
        available ==> (r matches Ok(run) && run.planned() == seq![PlatformCall::Release(vk_code(key))]),
{
    let actions = vec![Action::KeyUp(key)];
    proof {
        lemma_single_action(Action::KeyUp(key));
        assert(actions@ =~= seq![Action::KeyUp(key)]);
    }
    send_sequence(available, actions)
}

/// Starts tapping one key: the sequence of that one action, which asserts the
/// key and then releases it, as two separate platform calls.
pub fn send_key_tap(available: bool, key: Key) -> (r: Result<SequenceRun, EngineError>)
    ensures
        starts_as(r, sequence_start(available, seq![Action::KeyTap(key)])),
        available ==> (r matches Ok(run) && run.planned()
            == seq![PlatformCall::Press(vk_code(key)), PlatformCall::Release(vk_code(key))]),
{
    let actions = vec![Action::KeyTap(key)];
    proof {
        lemma_single_action(Action::KeyTap(key));
        assert(actions@ =~= seq![Action::KeyTap(key)]);
    }
    send_sequence(available, actions)
}

/// The release-all recovery sweep: one release for every key of the catalog,
/// in catalog order, whatever became of the ones before.
pub struct ReleaseSweep {
    keys: Vec<Key>,
    released: usize,
}

/// The release to perform next in a sweep that has handed out `released` of them.
pub open spec fn sweep_next_call(released: nat) -> Option<PlatformCall> {
    if released < catalog().len() {
        Some(PlatformCall::Release(vk_code(catalog()[released as int])))
    } else {
        None
    }
}

/// How many releases a sweep has handed out after recording one more outcome;
/// the outcome itself does not matter.
pub open spec fn sweep_record(released: nat, outcome: Result<(), String>) -> nat {
    if released < catalog().len() {
        released + 1
    } else {
        released
    }
}

/// How many releases a fresh sweep has handed out after recording `outcomes`.
pub open spec fn swept_after(outcomes: Seq<Result<(), String>>) -> nat
    decreases outcomes.len(),
{
    if outcomes.len() == 0 {
        0
    } else {
        sweep_record(swept_after(outcomes.drop_last()), outcomes.last())
    }
}

/// How a sweep ends: with success once every key was released; not yet before.
pub open spec fn sweep_outcome(released: nat) -> Option<Result<(), EngineError>> {
    if released == catalog().len() {
        Some(Ok(()))
    } else {
        None
    }
}

/// A sweep succeeds once it has gone through the whole catalog, whatever the
/// outcome of each release: failing releases do not stop it, nor fail it.
pub proof fn lemma_sweep_succeeds_whatever_fails(outcomes: Seq<Result<(), String>>)
    requires
        outcomes.len() >= catalog().len(),
    ensures
        sweep_outcome(swept_after(outcomes)) == Some(Ok::<(), EngineError>(())),
{
    lemma_swept_after(outcomes);
}

/// A sweep hands out one release per outcome recorded, up to the catalog's size.
proof fn lemma_swept_after(outcomes: Seq<Result<(), String>>)
    ensures
        swept_after(outcomes) == if outcomes.len() < catalog().len() {
            outcomes.len()
        } else {
            catalog().len()
        },
    decreases outcomes.len(),
{
    if outcomes.len() > 0 {
        lemma_swept_after(outcomes.drop_last());
    }
}

impl ReleaseSweep {
    /// How many releases were handed out and recorded.
    pub closed spec fn released(&self) -> nat {
        self.released as nat
    }

    #[verifier::type_invariant]
    spec fn inv(&self) -> bool {
        &&& self.keys@ == catalog()
        &&& self.released <= self.keys@.len()
    }

    /// The release to perform next; `None` once every key was released.
    pub fn next_call(&self) -> (r: Option<PlatformCall>)
        ensures
            r == sweep_next_call(self.released()),
    {
        proof {
            use_type_invariant(self);
        }
        if self.released < self.keys.len() {
            Some(PlatformCall::Release(map_key_to_vk(self.keys[self.released])))
        } else {
            None
        }
    }

    /// Records how the release handed out by `next_call` went, and moves on
    /// to the next key either way.
    pub fn record(&mut self, outcome: Result<(), String>)
        ensures
            final(self).released() == sweep_record(old(self).released(), outcome),
    {
        proof {
            use_type_invariant(&*self);
        }
        if self.released < self.keys.len() {
            self.released = self.released + 1;
        }
    }

    /// How the sweep ended; `None` while keys remain to release.
    pub fn outcome(&self) -> (r: Option<Result<(), EngineError>>)
        ensures
            r == sweep_outcome(self.released()),
    {
        proof {
            use_type_invariant(self);
        }
        if self.released == self.keys.len() {
            Some(Ok(()))
        } else {
            None
        }
    }
}

/// Starts the release-all sweep. Where the platform has no injection
/// capability the sweep cannot even start.
pub fn send_panic(available: bool) -> (r: Result<ReleaseSweep, EngineError>)
    ensures
        !available ==> r == Err::<ReleaseSweep, EngineError>(EngineError::Unavailable),
        available ==> (r matches Ok(sweep) && sweep.released() == 0),
{
    if !available {
        return Err(EngineError::Unavailable);
    }
    Ok(ReleaseSweep { keys: all_keys(), released: 0 })
}

} // verus!
