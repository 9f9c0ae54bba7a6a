//! The retransmission schedule of a request that was not answered.

use vstd::arithmetic::power2::{lemma2_to64, lemma_pow2_unfold, pow2};
use vstd::prelude::*;

verus! {

/// How long the first attempt waits for a reply, in milliseconds.
pub const INITIAL_TIMEOUT_MS: u64 = 250;

/// How many times a request is sent before the client gives up.
pub const MAX_ATTEMPTS: u32 = 9;

/// How long attempt `attempt` waits for a reply, in milliseconds: the first
/// a quarter of a second, each later one twice as long as the one before.
pub open spec fn timeout_ms(attempt: nat) -> nat
    recommends
        attempt >= 1,
{
    250 * pow2((attempt - 1) as nat)
}

/// Where a request stands in its schedule.
pub ghost struct RetryModel {
    /// The attempt that is under way, counted from 1.
    pub attempt: nat,
    /// The wait of that attempt, in milliseconds.
    pub timeout_ms: nat,
}

impl RetryModel {
    /// The attempt is one of the nine, and the timeout is the one that the
    /// schedule gives it.
    pub open spec fn well_formed(self) -> bool {
        &&& 1 <= self.attempt <= MAX_ATTEMPTS
        &&& self.timeout_ms == timeout_ms(self.attempt)
    }

    /// The first attempt.
    pub open spec fn first() -> RetryModel {
        RetryModel { attempt: 1, timeout_ms: 250 }
    }

    /// The attempt that follows an unanswered one, unless that was the last.
    pub open spec fn after_timeout(self) -> Option<RetryModel> {
        if self.attempt >= MAX_ATTEMPTS {
            None
        } else {
            Some(RetryModel { attempt: self.attempt + 1, timeout_ms: 2 * self.timeout_ms })
        }
    }

    /// The state after `unanswered` attempts in a row, counted from the
    /// first, got no reply.
    pub open spec fn after_timeouts(unanswered: nat) -> Option<RetryModel>
        decreases unanswered,
    {
        if unanswered == 0 {
            Some(RetryModel::first())
        } else {
            match RetryModel::after_timeouts((unanswered - 1) as nat) {
                Some(state) => state.after_timeout(),
                None => None,
            }
        }
    }
}

/// The attempt counter and the current timeout of one exchange.
#[derive(Clone, Copy, Debug)]
pub struct RetryState {
    attempt: u32,
    current_timeout_ms: u64,
}

impl View for RetryState {
    type V = RetryModel;

    closed spec fn view(&self) -> RetryModel {
        RetryModel { attempt: self.attempt as nat, timeout_ms: self.current_timeout_ms as nat }
    }
}

impl RetryState {
    #[verifier::type_invariant]
    closed spec fn inv(self) -> bool {
        self@.well_formed()
    }

    /// The state in which the first attempt is sent.
    pub fn first() -> (state: RetryState)
        ensures
            state@ == RetryModel::first(),
            state@.well_formed(),
    {
        proof {
            lemma2_to64();
        }
        RetryState { attempt: 1, current_timeout_ms: INITIAL_TIMEOUT_MS }
    }

    /// The number of the attempt under way, from 1 to 9.
    pub fn attempt(&self) -> (attempt: u32)
        ensures
            attempt == self@.attempt,
            1 <= attempt <= MAX_ATTEMPTS,
    {
        proof {
            use_type_invariant(self);
        }
        self.attempt
    }

    /// How long the attempt under way waits for a reply, in milliseconds.
    pub fn current_timeout_ms(&self) -> (ms: u64)
        ensures
            ms == self@.timeout_ms,
            ms == timeout_ms(self@.attempt),
    {
        proof {
            use_type_invariant(self);
        }
        self.current_timeout_ms
    }

    /// The state in which the next attempt is sent, after the one under way
    /// got no reply in time: `None` when that was the ninth.
    pub fn after_timeout(&self) -> (next: Option<RetryState>)
        ensures
            self@.well_formed(),
            next is Some <==> self@.attempt < MAX_ATTEMPTS,
            match next {
                Some(state) => self@.after_timeout() == Some(state@),
                None => self@.after_timeout() is None,
            },
    {
        proof {
            use_type_invariant(self);
            lemma_timeout_bounds(self@.attempt);
        }
        if self.attempt >= MAX_ATTEMPTS {
            None
        } else {
            proof {
                lemma_timeout_doubles(self@.attempt);
            }
            Some(
                RetryState {
                    attempt: self.attempt + 1,
                    current_timeout_ms: self.current_timeout_ms * 2,
                },
            )
        }
    }
}

/// Each timeout is twice the one before it.
pub proof fn lemma_timeout_doubles(attempt: nat)
    requires
        attempt >= 1,
    ensures
        timeout_ms(attempt + 1) == 2 * timeout_ms(attempt),
{
    lemma_pow2_unfold(attempt);
}

/// No timeout of the schedule is longer than that of the ninth attempt,
/// which is sixty-four seconds.
pub proof fn lemma_timeout_bounds(attempt: nat)
    requires
        1 <= attempt <= MAX_ATTEMPTS,
    ensures
        250 <= timeout_ms(attempt) <= 64000,
        timeout_ms(1) == 250,
        timeout_ms(9) == 64000,
{
    lemma2_to64();
}

/// A state of the schedule is followed by a state of the schedule.
pub proof fn lemma_after_timeout_well_formed(state: RetryModel)
    requires
        state.well_formed(),
    ensures
        match state.after_timeout() {
            Some(next) => next.well_formed() && next.attempt == state.attempt + 1,
            None => state.attempt == MAX_ATTEMPTS,
        },
{
    lemma_timeout_doubles(state.attempt);
}

/// After `unanswered` attempts without a reply, fewer than nine, attempt
/// `unanswered + 1` is under way and waits `250 * 2^unanswered` milliseconds;
/// after nine there is no further attempt.
pub proof fn lemma_schedule(unanswered: nat)
    ensures
        unanswered < MAX_ATTEMPTS ==> RetryModel::after_timeouts(unanswered) == Some(
            RetryModel { attempt: unanswered + 1, timeout_ms: 250 * pow2(unanswered) },
        ),
        unanswered >= MAX_ATTEMPTS ==> RetryModel::after_timeouts(unanswered) is None,
    decreases unanswered,
{
    if unanswered == 0 {
        lemma2_to64();
    } else {
        lemma_schedule((unanswered - 1) as nat);
        if unanswered < MAX_ATTEMPTS {
            lemma_pow2_unfold(unanswered);
        }
    }
}

} // verus!
