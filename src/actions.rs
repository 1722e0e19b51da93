//! Actions, sequences of them, and the bounds a sequence must respect
//! before it may run.
use vstd::prelude::*;

use crate::keys::Key;
use crate::text::{decimal, push_decimal};

verus! {

/// One step of a sequence.
#[derive(Clone, Copy, Debug, PartialEq, Eq, Structural)]
pub enum Action {
    /// Assert a key.
    KeyDown(Key),
    /// Release a key.
    KeyUp(Key),
    /// Assert, then release a key.
    KeyTap(Key),
    /// Suspend execution for this many milliseconds.
    Wait(u32),
}

/// Why a sequence was rejected, with the offending value and the bound it broke.
#[allow(inconsistent_fields)]
#[derive(Clone, Copy, Debug, PartialEq, Eq, Structural)]
pub enum ValidationError {
    TooManyActions { count: usize, limit: usize },
    WaitTooLong { ms: u32, limit: u32 },
    TotalWaitTooLong { total: u32, limit: u32 },
}

/// The human-readable detail of a validation error.
pub open spec fn validation_message(e: ValidationError) -> Seq<char> {
    match e {
        ValidationError::TooManyActions { count, limit } =>
            "Too many actions: "@ + decimal(count as nat) + " (max "@ + decimal(limit as nat) + ")"@,
        ValidationError::WaitTooLong { ms, limit } =>
            "Wait too long: "@ + decimal(ms as nat) + "ms (max "@ + decimal(limit as nat) + "ms)"@,
        ValidationError::TotalWaitTooLong { total, limit } =>
            "Total wait too long: "@ + decimal(total as nat) + "ms (max "@ + decimal(limit as nat) + "ms)"@,
    }
}

impl ValidationError {
    /// The human-readable detail: what was found, and the bound.
    pub fn message(&self) -> (r: String)
        ensures
            r@ == validation_message(*self),
    {
        match *self {
            ValidationError::TooManyActions { count, limit } => {
                let mut out = String::from_str("Too many actions: ");
                push_decimal(&mut out, count as u64);
                out.append(" (max ");
                push_decimal(&mut out, limit as u64);
                out.append(")");
                out
            },
            ValidationError::WaitTooLong { ms, limit } => {
                let mut out = String::from_str("Wait too long: ");
                push_decimal(&mut out, ms as u64);
                out.append("ms (max ");
                push_decimal(&mut out, limit as u64);
                out.append("ms)");
                out
            },
            ValidationError::TotalWaitTooLong { total, limit } => {
                let mut out = String::from_str("Total wait too long: ");
                push_decimal(&mut out, total as u64);
                out.append("ms (max ");
                push_decimal(&mut out, limit as u64);
                out.append("ms)");
                out
            },
        }
    }
}

/// Checks a sequence against its length and timing bounds.
pub struct SequenceValidator;

/// The milliseconds an action waits (none but for `Wait`).
pub open spec fn wait_ms(a: Action) -> nat {
    match a {
        Action::Wait(ms) => ms as nat,
        _ => 0,
    }
}

/// Whether an action is a `Wait` longer than a single wait may be.
pub open spec fn is_long_wait(a: Action) -> bool {
    a matches Action::Wait(ms) && ms > SequenceValidator::MAX_WAIT_MS
}

/// The sum of all waits of a sequence.
pub open spec fn total_wait(s: Seq<Action>) -> nat
    decreases s.len(),
{
    if s.len() == 0 {
        0
    } else {
        total_wait(s.drop_last()) + wait_ms(s.last())
    }
}

/// The duration of the first over-long wait of a sequence, if there is one.
pub open spec fn first_long_wait(s: Seq<Action>) -> Option<u32>
    decreases s.len(),
{
    if s.len() == 0 {
        None
    } else {
        match first_long_wait(s.drop_last()) {
            Some(ms) => Some(ms),
            None => match s.last() {
                Action::Wait(ms) if ms > SequenceValidator::MAX_WAIT_MS => Some(ms),
                _ => None,
            },
        }
    }
}

/// The outcome of validating a sequence: the bounds are checked in order
/// (length, each wait, total wait) and the first one broken is reported.
pub open spec fn validation_outcome(s: Seq<Action>) -> Result<(), ValidationError> {
    if s.len() == 0 {
        Ok(())
    } else if s.len() > SequenceValidator::MAX_ACTIONS {
        Err(ValidationError::TooManyActions { count: s.len() as usize, limit: SequenceValidator::MAX_ACTIONS })
    } else {
        match first_long_wait(s) {
            Some(ms) => Err(ValidationError::WaitTooLong { ms, limit: SequenceValidator::MAX_WAIT_MS }),
            None => if total_wait(s) > SequenceValidator::MAX_TOTAL_WAIT_MS {
                Err(ValidationError::TotalWaitTooLong {
                    total: total_wait(s) as u32,
                    limit: SequenceValidator::MAX_TOTAL_WAIT_MS,
                })
            } else {
                Ok(())
            },
        }
    }
}

/// A sequence with no over-long wait has no first over-long wait.
proof fn lemma_no_long_wait(s: Seq<Action>)
    requires
        forall|j: int| 0 <= j < s.len() ==> !is_long_wait(#[trigger] s[j]),
    ensures
        first_long_wait(s) is None,
    decreases s.len(),
{
    if s.len() > 0 {
        lemma_no_long_wait(s.drop_last());
    }
}

/// The first over-long wait reported is the duration of some action of the sequence.
proof fn lemma_first_long_wait_occurs(s: Seq<Action>)
    requires
        first_long_wait(s) is Some,
    ensures
        exists|j: int| 0 <= j < s.len() && s[j] == Action::Wait(first_long_wait(s)->0),
        first_long_wait(s)->0 > SequenceValidator::MAX_WAIT_MS,
    decreases s.len(),
{
    if first_long_wait(s.drop_last()) is Some {
        lemma_first_long_wait_occurs(s.drop_last());
        let j = choose|j: int| 0 <= j < s.drop_last().len() && s.drop_last()[j] == Action::Wait(first_long_wait(s)->0);
        assert(s[j] == s.drop_last()[j]);
    } else {
        assert(s[s.len() - 1] == s.last());
    }
}

/// Where the over-long waits up to position `i` all last `ms`, and the action
/// at `i` is one of them, the first over-long wait lasts `ms`.
proof fn lemma_first_long_wait_is(s: Seq<Action>, i: int, ms: u32)
    requires
        0 <= i < s.len(),
        ms > SequenceValidator::MAX_WAIT_MS,
        s[i] == Action::Wait(ms),
        forall|j: int| 0 <= j < i && is_long_wait(#[trigger] s[j]) ==> s[j] == Action::Wait(ms),
    ensures
        first_long_wait(s) == Some(ms),
    decreases s.len(),
{
    let p = s.drop_last();
    if i < s.len() - 1 {
        assert forall|j: int| 0 <= j < i && is_long_wait(#[trigger] p[j]) implies p[j] == Action::Wait(ms) by {
            assert(p[j] == s[j]);
        }
        assert(p[i] == s[i]);
        lemma_first_long_wait_is(p, i, ms);
    } else if first_long_wait(p) is Some {
        lemma_first_long_wait_occurs(p);
        let j = choose|j: int| 0 <= j < p.len() && p[j] == Action::Wait(first_long_wait(p)->0);
        assert(s[j] == p[j]);
    }
}

/// A sequence within every bound validates: at most `MAX_ACTIONS` actions,
/// no wait over `MAX_WAIT_MS`, and waits summing to at most `MAX_TOTAL_WAIT_MS`.
pub proof fn lemma_within_bounds_is_valid(s: Seq<Action>)
    requires
        s.len() <= SequenceValidator::MAX_ACTIONS,
        forall|i: int| 0 <= i < s.len() ==> wait_ms(#[trigger] s[i]) <= SequenceValidator::MAX_WAIT_MS,
        total_wait(s) <= SequenceValidator::MAX_TOTAL_WAIT_MS,
    ensures
        validation_outcome(s) == Ok::<(), ValidationError>(()),
{
    assert forall|j: int| 0 <= j < s.len() implies !is_long_wait(#[trigger] s[j]) by {
        assert(wait_ms(s[j]) <= SequenceValidator::MAX_WAIT_MS);
    }
    lemma_no_long_wait(s);
}

/// A sequence longer than `MAX_ACTIONS` is rejected as too many actions,
/// citing its exact length and the limit.
pub proof fn lemma_too_long_is_rejected(s: Seq<Action>)
    requires
        SequenceValidator::MAX_ACTIONS < s.len() <= usize::MAX,
    ensures
        validation_outcome(s) == Err::<(), ValidationError>(
            ValidationError::TooManyActions { count: s.len() as usize, limit: SequenceValidator::MAX_ACTIONS },
        ),
        validation_outcome(s)->Err_0->count == s.len(),
{
}

/// A sequence of at most `MAX_ACTIONS` actions holding a wait of 10,001 ms is
/// rejected as a wait too long, citing 10,001 and the 10,000 limit, whatever
/// else it holds, provided no over-long wait of another duration comes first.
pub proof fn lemma_wait_of_10001_is_rejected(s: Seq<Action>, i: int)
    requires
        s.len() <= SequenceValidator::MAX_ACTIONS,
        0 <= i < s.len(),
        s[i] == Action::Wait(10_001),
        forall|j: int| 0 <= j < i && is_long_wait(#[trigger] s[j]) ==> s[j] == Action::Wait(10_001),
    ensures
        validation_outcome(s) == Err::<(), ValidationError>(
            ValidationError::WaitTooLong { ms: 10_001, limit: 10_000 },
        ),
{
    lemma_first_long_wait_is(s, i, 10_001);
}

impl SequenceValidator {
    pub const MAX_ACTIONS: usize = 256;
    pub const MAX_WAIT_MS: u32 = 10_000;
    pub const MAX_TOTAL_WAIT_MS: u32 = 30_000;

    /// Checks the sequence against the bounds, in order, and reports the first
    /// one broken. The empty sequence is always valid.
    pub fn validate(actions: &[Action]) -> (r: Result<(), ValidationError>)
        ensures
            r == validation_outcome(actions@),
    {
        if actions.len() == 0 {
            return Ok(());
        }
        if actions.len() > Self::MAX_ACTIONS {
            return Err(ValidationError::TooManyActions { count: actions.len(), limit: Self::MAX_ACTIONS });
        }
        let ghost s = actions@;
        let mut waited: u32 = 0;
        let mut i: usize = 0;
        while i < actions.len()
            invariant
                s == actions@,
                0 < s.len() <= Self::MAX_ACTIONS,
                i <= s.len(),
                first_long_wait(s.take(i as int)) is None,
                waited == total_wait(s.take(i as int)),
                waited <= i * Self::MAX_WAIT_MS,
            decreases s.len() - i,
        {
            assert(s.take(i + 1).drop_last() =~= s.take(i as int));
            if let Action::Wait(ms) = actions[i] {
                if ms > Self::MAX_WAIT_MS {
                    proof {
                        lemma_first_long_wait_extends(s, i as int + 1);
                    }
                    return Err(ValidationError::WaitTooLong { ms, limit: Self::MAX_WAIT_MS });
                }
                waited = waited + ms;
            }
            i = i + 1;
        }
        assert(s.take(s.len() as int) =~= s);
        if waited > Self::MAX_TOTAL_WAIT_MS {
            return Err(ValidationError::TotalWaitTooLong { total: waited, limit: Self::MAX_TOTAL_WAIT_MS });
        }
        Ok(())
    }
}

/// Once a prefix holds an over-long wait, every longer prefix reports the same one.
proof fn lemma_first_long_wait_extends(s: Seq<Action>, n: int)
    requires
        0 < n <= s.len(),
        first_long_wait(s.take(n)) is Some,
    ensures
        first_long_wait(s) == first_long_wait(s.take(n)),
    decreases s.len() - n,
{
    if n < s.len() {
        assert(s.take(n + 1).drop_last() =~= s.take(n));
        lemma_first_long_wait_extends(s, n + 1);
    } else {
        assert(s.take(n) =~= s);
    }
}

} // verus!
