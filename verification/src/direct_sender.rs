//! The direct retry sender. One signed transaction is submitted to the
//! primary ledger endpoint and the ledger is polled at a fixed interval; the
//! same signed bytes are reused on every attempt, so resubmission is
//! idempotent. Polling ends when the transaction is observed landed, when
//! the authorizing blockhash is observed expired, or when the attempt
//! ceiling is reached; if the ledger becomes unobservable first, the outcome
//! is `Unknown` — the transaction may still have landed.

use vstd::prelude::*;

use crate::types::SubmissionOutcome;

verus! {

/// One confirmation poll's view of the ledger.
#[derive(Clone, Copy, PartialEq, Eq, Structural, Debug)]
pub enum LedgerObservation {
    /// The signature is not (yet) on the ledger.
    NotFound,
    /// The transaction landed in the given slot.
    Landed { slot: u64 },
    /// The authorizing blockhash is no longer a valid recent blockhash; the
    /// transaction can never land.
    BlockhashExpired,
}

/// Bounds on one direct submission attempt.
#[derive(Clone, Copy, PartialEq, Eq, Structural, Debug)]
pub struct RetryPolicy {
    /// How many confirmation polls are made before the attempt is abandoned.
    pub attempt_ceiling: usize,
}

/// The outcome of polling: the first decisive observation within the
/// ceiling wins; exhausting the ceiling on indecisive polls is `Expired`;
/// running out of observations below the ceiling is `Unknown`.
pub open spec fn direct_outcome_spec(
    observations: Seq<LedgerObservation>,
    attempts_left: nat,
) -> SubmissionOutcome
    decreases observations.len(),
{
    if attempts_left == 0 {
        SubmissionOutcome::Expired
    } else if observations.len() == 0 {
        SubmissionOutcome::Unknown
    } else {
        match observations[0] {
            LedgerObservation::Landed { slot } => SubmissionOutcome::Landed { slot },
            LedgerObservation::BlockhashExpired => SubmissionOutcome::Expired,
            LedgerObservation::NotFound => direct_outcome_spec(
                observations.drop_first(),
                (attempts_left - 1) as nat,
            ),
        }
    }
}

/// Polls the given ledger views in order, up to the policy's ceiling, and
/// returns the attempt's outcome.
pub fn send_with_retry(observations: &Vec<LedgerObservation>, policy: &RetryPolicy) -> (outcome:
    SubmissionOutcome)
    ensures
        outcome == direct_outcome_spec(observations@, policy.attempt_ceiling as nat),
{
    let n = observations.len();
    let ceiling = policy.attempt_ceiling;
    let mut i: usize = 0;
    proof {
        assert(observations@.skip(0) =~= observations@);
    }
    while i < ceiling && i < n
        invariant
            i <= ceiling,
            i <= n,
            n == observations@.len(),
            direct_outcome_spec(observations@, policy.attempt_ceiling as nat)
                == direct_outcome_spec(observations@.skip(i as int), (ceiling - i) as nat),
            ceiling == policy.attempt_ceiling,
        decreases ceiling - i,
    {
        proof {
            assert(observations@.skip(i as int)[0] == observations@[i as int]);
            assert(observations@.skip(i as int).drop_first() =~= observations@.skip(i as int + 1));
        }
        match observations[i] {
            LedgerObservation::Landed { slot } => {
                return SubmissionOutcome::Landed { slot };
            },
            LedgerObservation::BlockhashExpired => {
                return SubmissionOutcome::Expired;
            },
            LedgerObservation::NotFound => {},
        }
        i = i + 1;
    }
    if i == ceiling {
        SubmissionOutcome::Expired
    } else {
        proof {
            assert(observations@.skip(i as int).len() == 0);
        }
        SubmissionOutcome::Unknown
    }
}

/// A poll that lands within the ceiling yields `Landed`: with the first
/// decisive view a landing on poll `n`, every earlier poll indecisive, and
/// `n` at or below the ceiling, the attempt reports the landing slot.
pub proof fn lemma_retry_lands(
    observations: Seq<LedgerObservation>,
    attempts_left: nat,
    n: nat,
    slot: u64,
)
    requires
        1 <= n <= attempts_left,
        n <= observations.len(),
        forall|k: int| 0 <= k < n - 1 ==> observations[k] == LedgerObservation::NotFound,
        observations[n - 1] == (LedgerObservation::Landed { slot }),
    ensures
        direct_outcome_spec(observations, attempts_left) == (SubmissionOutcome::Landed { slot }),
    decreases n,
{
    if n == 1 {
    } else {
        assert(observations[0] == LedgerObservation::NotFound);
        lemma_retry_lands(observations.drop_first(), (attempts_left - 1) as nat, (n - 1) as nat, slot);
    }
}

/// A ledger that never shows the transaction within the ceiling yields
/// `Expired`: with every poll up to the ceiling indecisive, the attempt is
/// abandoned as expired.
pub proof fn lemma_retry_expires(observations: Seq<LedgerObservation>, attempts_left: nat)
    requires
        attempts_left <= observations.len(),
        forall|k: int| 0 <= k < attempts_left ==> observations[k] == LedgerObservation::NotFound,
    ensures
        direct_outcome_spec(observations, attempts_left) == SubmissionOutcome::Expired,
    decreases attempts_left,
{
    if attempts_left == 0 {
    } else {
        assert(observations[0] == LedgerObservation::NotFound);
        lemma_retry_expires(observations.drop_first(), (attempts_left - 1) as nat);
    }
}

} // verus!
