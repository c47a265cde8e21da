//! The pauses between the attempts of a call that fails.
use vstd::arithmetic::power::{lemma1_pow, lemma_pow1, lemma_pow_adds, pow};
use vstd::prelude::*;

verus! {

/// The first pause, in milliseconds, and the factor by which the pauses grow.
pub const RETRY_BASE_MILLIS: u64 = 500;

/// The number of times that a call is tried again.
pub const RETRY_LIMIT: usize = 5;

/// A span of time: whole seconds, and nanoseconds below one second.
#[derive(Clone, Copy, Debug, PartialEq, Eq)]
pub struct Delay {
    pub secs: u64,
    pub nanos: u32,
}

impl View for Delay {
    type V = nat;

    /// The span in nanoseconds.
    open spec fn view(&self) -> nat {
        self.secs as nat * 1_000_000_000 + self.nanos as nat
    }
}

/// The pause before attempt `attempt + 1`, in milliseconds, before it is shortened by
/// chance: a power of the base, as far as 64 bits hold it.
pub open spec fn backoff_millis(base: u64, attempt: nat) -> int {
    let power = pow(base as int, attempt + 1);
    if power <= u64::MAX {
        power
    } else {
        u64::MAX as int
    }
}

/// The first pause is the base, and each further one is the one before it times the base, as
/// far as 64 bits hold it.
pub proof fn law_each_pause_is_the_one_before_times_the_base(base: u64, attempt: nat)
    ensures
        backoff_millis(base, 0) == base,
        backoff_millis(base, attempt) * base <= u64::MAX ==> backoff_millis(base, attempt + 1)
            == backoff_millis(base, attempt) * base,
        backoff_millis(base, attempt) * base > u64::MAX ==> backoff_millis(base, attempt + 1)
            == u64::MAX,
{
    let b = base as int;
    let power = pow(b, attempt + 1);
    lemma_pow1(b);
    lemma_pow_adds(b, attempt + 1, 1);
    assert(pow(b, attempt + 2) == power * b);
    if power > u64::MAX {
        if b == 0 {
            lemma_pow_adds(b, 1, attempt);
        } else if b == 1 {
            lemma1_pow(attempt + 1);
        } else {
            assert(power * b >= power && u64::MAX * b > u64::MAX) by (nonlinear_arith)
                requires
                    b >= 2,
                    power >= 0,
            ;
        }
    }
}

/// The pause of an exponential back-off before attempt `attempt + 1`, in milliseconds.
///
/// Calls `next` of `tokio_retry::strategy::ExponentialBackoff`, `attempt + 1` times on a
/// strategy made by `from_millis(base)`, through `Iterator::nth`. The first item is the
/// base, each further one is the one before it times the base, and a product that 64 bits
/// cannot hold is replaced by the largest number that they can. The items never end.
#[verifier::external_body]
fn exponential_backoff(base: u64, attempt: usize) -> (r: Option<u64>)
    ensures
        r is Some,
        r->0 == backoff_millis(base, attempt as nat),
{
    tokio_retry::strategy::ExponentialBackoff::from_millis(base).nth(attempt).map(
        |delay| delay.as_millis() as u64,
    )
}

/// A span of `millis` milliseconds, shortened by a random factor.
///
/// Calls `tokio_retry::strategy::jitter`, which multiplies the span by a random number
/// that is at least zero and below one. A whole number of half seconds in this range is
/// exact as a floating point number, and rounding the product to a floating point number
/// and then to whole nanoseconds cannot take it above the span.
#[verifier::external_body]
fn jitter(millis: u64) -> (r: Delay)
    requires
        millis % 500 == 0,
        millis <= 0x10_0000_0000_0000,
    ensures
        r.nanos < 1_000_000_000,
        r@ <= millis as nat * 1_000_000,
{
    let delay = tokio_retry::strategy::jitter(std::time::Duration::from_millis(millis));
    Delay { secs: delay.as_secs(), nanos: delay.subsec_nanos() }
}

proof fn lemma_powers_of_the_base()
    ensures
        pow(500, 1) == 500,
        pow(500, 2) == 250_000,
        pow(500, 3) == 125_000_000,
        pow(500, 4) == 62_500_000_000,
        pow(500, 5) == 31_250_000_000_000,
{
    lemma_pow1(500);
    lemma_pow_adds(500, 1, 1);
    lemma_pow_adds(500, 2, 1);
    lemma_pow_adds(500, 3, 1);
    lemma_pow_adds(500, 4, 1);
}

/// The longest pauses before the attempts that follow a first one, in milliseconds.
pub open spec fn longest_pauses() -> Seq<u64> {
    seq![500u64, 250_000u64, 125_000_000u64, 62_500_000_000u64, 31_250_000_000_000u64]
}

/// The longest pauses before the attempts that follow a first one, in milliseconds.
pub fn backoff_schedule() -> (r: Vec<u64>)
    ensures
        r@ == longest_pauses(),
        r@ == seq![500u64, 250_000u64, 125_000_000u64, 62_500_000_000u64, 31_250_000_000_000u64],
{
    let mut schedule: Vec<u64> = Vec::new();
    let mut attempt: usize = 0;
    while attempt < RETRY_LIMIT
        invariant
            attempt <= RETRY_LIMIT,
            schedule@ == longest_pauses().take(attempt as int),
        decreases RETRY_LIMIT - attempt,
    {
        proof {
            lemma_powers_of_the_base();
            assert(backoff_millis(RETRY_BASE_MILLIS, attempt as nat)
                == longest_pauses()[attempt as int]);
            assert(longest_pauses().take(attempt + 1) =~= longest_pauses().take(
                attempt as int,
            ).push(longest_pauses()[attempt as int]));
        }
        if let Some(millis) = exponential_backoff(RETRY_BASE_MILLIS, attempt) {
            schedule.push(millis);
        }
        attempt = attempt + 1;
    }
    assert(longest_pauses().take(RETRY_LIMIT as int) =~= longest_pauses());
    schedule
}

/// Whether shortening a span of `millis` milliseconds by chance can give this one.
pub closed spec fn can_be_drawn(millis: u64, delay: Delay) -> bool {
    call_ensures(jitter, (millis,), delay)
}

/// A span that can be drawn from another is one that `jitter` can make of it, and so no longer
/// than it.
proof fn law_draws_are_those_of_jitter(millis: u64, delay: Delay)
    ensures
        can_be_drawn(millis, delay) <==> call_ensures(jitter, (millis,), delay),
        can_be_drawn(millis, delay) ==> delay.secs * 1_000_000_000 + delay.nanos <= millis
            * 1_000_000,
{
}

/// The pauses, each shortened on its own, in their order.
pub fn shortened<F: Fn(u64) -> Delay>(pauses: &[u64], shorten: F) -> (r: Vec<Delay>)
    requires
        forall|i: int| 0 <= i < pauses@.len() ==> call_requires(shorten, (#[trigger] pauses@[i],)),
    ensures
        r@.len() == pauses@.len(),
        forall|i: int|
            0 <= i < r@.len() ==> call_ensures(shorten, (pauses@[i],), #[trigger] r@[i]),
{
    let mut delays: Vec<Delay> = Vec::new();
    let mut i: usize = 0;
    while i < pauses.len()
        invariant
            forall|j: int|
                0 <= j < pauses@.len() ==> call_requires(shorten, (#[trigger] pauses@[j],)),
            i <= pauses@.len(),
            delays@.len() == i,
            forall|j: int| 0 <= j < i ==> call_ensures(shorten, (pauses@[j],), #[trigger] delays@[j]),
        decreases pauses@.len() - i,
    {
        delays.push(shorten(pauses[i]));
        i = i + 1;
    }
    delays
}

/// The pauses before the attempts that follow a first one: the longest ones, each shortened by
/// a chance of its own. Which span each draw gives is not said, only that it is a draw from
/// the pause at its place and no longer than it.
pub fn retry_strategy() -> (r: Vec<Delay>)
    ensures
        r@.len() == RETRY_LIMIT,
        r@.len() == 5,
        forall|i: int|
            0 <= i < r@.len() ==> {
                &&& can_be_drawn(longest_pauses()[i], #[trigger] r@[i])
                &&& r@[i].nanos < 1_000_000_000
                &&& r@[i]@ <= longest_pauses()[i] * 1_000_000
                &&& r@[i].secs * 1_000_000_000 + r@[i].nanos <= 1_000_000 * seq![
                    500u64,
                    250_000u64,
                    125_000_000u64,
                    62_500_000_000u64,
                    31_250_000_000_000u64,
                ][i]
            },
{
    let schedule = backoff_schedule();
    shortened(schedule.as_slice(), jitter)
}

} // verus!
