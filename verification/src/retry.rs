//! The retry policy: the attempt budget of a call and the pause before a
//! retry.

use vstd::prelude::*;

verus! {

/// Attempts granted for each credential of the pool.
pub const MAX_RETRIES_PER_CREDENTIAL: usize = 3;

/// Hard ceiling on the attempts of one call, whatever the size of the pool.
pub const MAX_TOTAL_RETRIES: usize = 9;

/// The pause before the first retry, in milliseconds.
pub const BACKOFF_BASE_MS: u64 = 200;

/// The longest pause before jitter is added, in milliseconds.
pub const BACKOFF_CEILING_MS: u64 = 2000;

/// The number of doublings after which the pause no longer grows.
pub const BACKOFF_MAX_DOUBLINGS: usize = 6;

/// The attempt budget of a call over a pool of `total` credentials: three
/// attempts for each credential, and never more than nine.
pub open spec fn attempt_cap(total: nat) -> nat {
    if total * 3 <= 9 {
        total * 3
    } else {
        9
    }
}

/// Two to the power `n`.
pub open spec fn pow2(n: nat) -> nat
    decreases n,
{
    if n == 0 {
        1
    } else {
        2 * pow2((n - 1) as nat)
    }
}

/// The pause before the retry that follows attempt `attempt` (counted from
/// zero), without jitter: 200 ms doubled once for each earlier attempt, at
/// most six times, and cut off at 2000 ms.
pub open spec fn backoff_millis(attempt: nat) -> nat {
    let doublings = if attempt <= 6 {
        attempt
    } else {
        6
    };
    let raw = 200 * pow2(doublings);
    if raw <= 2000 {
        raw
    } else {
        2000
    }
}

/// The largest jitter that may be added to a pause of `backoff` ms: a
/// quarter of it, and at least one millisecond.
pub open spec fn jitter_limit(backoff: nat) -> nat {
    if backoff / 4 >= 1 {
        backoff / 4
    } else {
        1
    }
}

/// The pause with `jitter` added, held within the range of a `u64`.
pub open spec fn delay_millis(attempt: nat, jitter: nat) -> nat {
    let sum = backoff_millis(attempt) + jitter;
    if sum <= u64::MAX {
        sum
    } else {
        u64::MAX as nat
    }
}

/// Whether `millis` is a pause that may follow attempt `attempt`: the
/// backoff of that attempt plus a jitter within its limit.
pub open spec fn is_retry_delay(attempt: nat, millis: nat) -> bool {
    backoff_millis(attempt) <= millis <= backoff_millis(attempt) + jitter_limit(
        backoff_millis(attempt),
    )
}

/// Computes the attempt budget of a call over `total` credentials.
pub fn max_attempts(total: usize) -> (cap: usize)
    ensures
        cap == attempt_cap(total as nat),
        cap <= MAX_TOTAL_RETRIES,
{
    if total >= MAX_RETRIES_PER_CREDENTIAL {
        MAX_TOTAL_RETRIES
    } else {
        total * MAX_RETRIES_PER_CREDENTIAL
    }
}

/// Computes the pause before the retry that follows attempt `attempt`,
/// without jitter.
pub fn backoff(attempt: usize) -> (millis: u64)
    ensures
        millis == backoff_millis(attempt as nat),
        BACKOFF_BASE_MS <= millis <= BACKOFF_CEILING_MS,
{
    let doublings: usize = if attempt <= BACKOFF_MAX_DOUBLINGS {
        attempt
    } else {
        BACKOFF_MAX_DOUBLINGS
    };
    let mut raw: u64 = BACKOFF_BASE_MS;
    let mut done: usize = 0;
    while done < doublings
        invariant
            done <= doublings <= 6,
            raw == 200 * pow2(done as nat),
            200 <= raw <= 12800,
            done < 6 ==> raw <= 6400,
        decreases doublings - done,
    {
        proof {
            lemma_pow2_small();
        }
        raw = raw * 2;
        done = done + 1;
    }
    if raw <= BACKOFF_CEILING_MS {
        raw
    } else {
        BACKOFF_CEILING_MS
    }
}

/// Computes the largest jitter for a pause of `backoff` ms.
pub fn max_jitter(backoff: u64) -> (limit: u64)
    ensures
        limit == jitter_limit(backoff as nat),
        limit >= 1,
{
    let quarter: u64 = backoff / 4;
    if quarter >= 1 {
        quarter
    } else {
        1
    }
}

/// Adds `jitter` to the pause that follows attempt `attempt`. The sum stops
/// at the largest `u64`.
pub fn delay_with_jitter(attempt: usize, jitter: u64) -> (millis: u64)
    ensures
        millis == delay_millis(attempt as nat, jitter as nat),
        jitter <= jitter_limit(backoff_millis(attempt as nat)) ==> is_retry_delay(
            attempt as nat,
            millis as nat,
        ),
{
    let base: u64 = backoff(attempt);
    base.saturating_add(jitter)
}

/// `fastrand::u64` on the closed range from `low` to `high`. The generator
/// is seeded per thread, so nothing is known of the number but that it lies
/// in the range. The range is never empty, which is the one case in which
/// `fastrand::u64` panics.
#[verifier::external_body]
fn random_between(low: u64, high: u64) -> (drawn: u64)
    requires
        low <= high,
    ensures
        low <= drawn <= high,
{
    fastrand::u64(low..=high)
}

/// Chooses the pause, in milliseconds, before the retry that follows attempt
/// `attempt`: the backoff of that attempt plus a random jitter of at most a
/// quarter of it.
pub fn retry_delay(attempt: usize) -> (millis: u64)
    ensures
        is_retry_delay(attempt as nat, millis as nat),
        200 <= millis <= 2500,
{
    let base: u64 = backoff(attempt);
    let limit: u64 = max_jitter(base);
    let jitter: u64 = random_between(0, limit);
    delay_with_jitter(attempt, jitter)
}

/// The first seven powers of two.
pub proof fn lemma_pow2_small()
    ensures
        pow2(0) == 1,
        pow2(1) == 2,
        pow2(2) == 4,
        pow2(3) == 8,
        pow2(4) == 16,
        pow2(5) == 32,
        pow2(6) == 64,
{
    reveal_with_fuel(pow2, 8);
}

/// Every pause lies between 200 ms and 2500 ms: the backoff is at least its
/// base and at most its ceiling, and the jitter adds at most a quarter.
pub proof fn lemma_retry_delay_bounds(attempt: nat, millis: nat)
    requires
        is_retry_delay(attempt, millis),
    ensures
        200 <= millis <= 2500,
{
    lemma_pow2_small();
}

/// The backoff never shrinks as the attempts go on.
pub proof fn lemma_backoff_monotone(earlier: nat, later: nat)
    requires
        earlier <= later,
    ensures
        backoff_millis(earlier) <= backoff_millis(later),
{
    lemma_pow2_small();
}

/// From the fifth attempt on the backoff stays at its ceiling, however far
/// the attempts go on: it saturates and cannot overflow.
pub proof fn lemma_backoff_saturates(attempt: nat)
    requires
        attempt >= 4,
    ensures
        backoff_millis(attempt) == 2000,
        forall|jitter: nat|
            jitter <= jitter_limit(backoff_millis(attempt)) ==> #[trigger] delay_millis(
                attempt,
                jitter,
            ) <= 2500,
{
    lemma_pow2_small();
}

/// The budget of a call never passes nine attempts, nor three for each
/// credential.
pub proof fn lemma_attempt_cap_bounds(total: nat)
    ensures
        attempt_cap(total) <= 9,
        attempt_cap(total) <= total * 3,
        total >= 1 ==> attempt_cap(total) >= 3,
{
}

} // verus!
