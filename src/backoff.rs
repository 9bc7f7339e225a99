use vstd::arithmetic::power::pow;
use vstd::prelude::*;

verus! {

/// Multipliers are stated in thousandths: `2000` means a factor of 2.0.
pub const MULTIPLIER_SCALE: u32 = 1000;

/// The restart policy of one supervised engine.
#[derive(Debug, Clone, Copy, PartialEq, Eq)]
pub struct RestartPolicy {
    /// A crash episode gives up once this many consecutive attempts failed.
    pub max_restarts: u32,
    /// Delay before the first restart of an episode.
    pub initial_backoff_ms: u64,
    /// Upper bound of every delay; `None` bounds it by `u64::MAX` alone.
    pub max_backoff_ms: Option<u64>,
    /// Growth factor between consecutive delays, in thousandths.
    pub backoff_multiplier_milli: u32,
}

impl RestartPolicy {
    /// A usable policy: positive first delay, multiplier above one.
    pub open spec fn wf(self) -> bool {
        &&& self.initial_backoff_ms > 0
        &&& self.backoff_multiplier_milli > MULTIPLIER_SCALE
    }

    /// The largest delay the policy allows.
    pub open spec fn cap(self) -> int {
        match self.max_backoff_ms {
            Some(m) => m as int,
            None => u64::MAX as int,
        }
    }
}

pub open spec fn min_int(a: int, b: int) -> int {
    if a <= b {
        a
    } else {
        b
    }
}

/// The delay before restarting after the `k`-th consecutive failure
/// (`k >= 1`): the first delay, then each one the previous scaled by the
/// multiplier (rounded down), always capped.
pub open spec fn backoff_spec(p: RestartPolicy, k: nat) -> int
    decreases k,
{
    if k <= 1 {
        min_int(p.initial_backoff_ms as int, p.cap())
    } else {
        min_int(
            backoff_spec(p, (k - 1) as nat) * p.backoff_multiplier_milli as int
                / MULTIPLIER_SCALE as int,
            p.cap(),
        )
    }
}

proof fn lemma_backoff_bounds(p: RestartPolicy, k: nat)
    ensures
        0 <= backoff_spec(p, k) <= p.cap(),
        p.cap() <= u64::MAX,
    decreases k,
{
    if k > 1 {
        lemma_backoff_bounds(p, (k - 1) as nat);
        let prev = backoff_spec(p, (k - 1) as nat);
        let m = p.backoff_multiplier_milli as int;
        assert(prev * m >= 0) by (nonlinear_arith)
            requires
                prev >= 0,
                m >= 0,
        ;
    }
}

proof fn lemma_backoff_stays_at_cap(p: RestartPolicy, k: nat)
    requires
        p.wf(),
        k >= 1,
        backoff_spec(p, k) == p.cap(),
    ensures
        backoff_spec(p, k + 1) == p.cap(),
{
    let c = p.cap();
    let m = p.backoff_multiplier_milli as int;
    assert(c * m / 1000 >= c) by (nonlinear_arith)
        requires
            c >= 0,
            m > 1000,
    ;
}

/// The delay before restarting after the `attempts`-th consecutive failure.
pub fn backoff_ms(policy: &RestartPolicy, attempts: u32) -> (r: u64)
    requires
        policy.wf(),
        attempts >= 1,
    ensures
        r == backoff_spec(*policy, attempts as nat),
{
    let cap: u64 = match policy.max_backoff_ms {
        Some(m) => m,
        None => u64::MAX,
    };
    let mut cur: u64 = if policy.initial_backoff_ms <= cap {
        policy.initial_backoff_ms
    } else {
        cap
    };
    let mut k: u32 = 1;
    while k < attempts
        invariant
            policy.wf(),
            1 <= k <= attempts,
            cap as int == policy.cap(),
            cur as int == backoff_spec(*policy, k as nat),
        decreases attempts - k,
    {
        if cur == cap {
            proof {
                lemma_backoff_stays_at_cap(*policy, k as nat);
            }
        } else {
            proof {
                lemma_backoff_bounds(*policy, (k + 1) as nat);
            }
            assert((cur as int) * (policy.backoff_multiplier_milli as int) <= u64::MAX as int
                * u32::MAX as int) by (nonlinear_arith)
                requires
                    cur <= u64::MAX,
                    policy.backoff_multiplier_milli <= u32::MAX,
            ;
            let scaled: u128 = (cur as u128) * (policy.backoff_multiplier_milli as u128)
                / (MULTIPLIER_SCALE as u128);
            assert(scaled as int == cur as int * policy.backoff_multiplier_milli as int / 1000)
                by (nonlinear_arith)
                requires
                    scaled as int == (cur as int * policy.backoff_multiplier_milli as int) / 1000,
            ;
            cur = if scaled <= cap as u128 {
                scaled as u64
            } else {
                cap
            };
        }
        k = k + 1;
    }
    cur
}

proof fn lemma_min_scale(a: int, c: int, f: int)
    requires
        a >= 0,
        c >= 0,
        f >= 1,
    ensures
        min_int(min_int(a, c) * f, c) == min_int(a * f, c),
{
    if a <= c {
    } else {
        assert(c * f >= c) by (nonlinear_arith)
            requires
                c >= 0,
                f >= 1,
        ;
        assert(a * f >= a) by (nonlinear_arith)
            requires
                a >= 0,
                f >= 1,
        ;
    }
}

/// With a whole-number multiplier `f`, the delay after the `k`-th
/// consecutive failure is exactly `min(initial * f^(k-1), max)`.
pub proof fn law_backoff_closed_form(p: RestartPolicy, k: nat)
    requires
        p.wf(),
        k >= 1,
        p.backoff_multiplier_milli % MULTIPLIER_SCALE == 0,
    ensures
        backoff_spec(p, k) == min_int(
            p.initial_backoff_ms as int * pow(
                (p.backoff_multiplier_milli / MULTIPLIER_SCALE) as int,
                (k - 1) as nat,
            ),
            p.cap(),
        ),
    decreases k,
{
    let f = (p.backoff_multiplier_milli / MULTIPLIER_SCALE) as int;
    let i = p.initial_backoff_ms as int;
    reveal(pow);
    if k == 1 {
        assert(pow(f, 0) == 1);
    } else {
        law_backoff_closed_form(p, (k - 1) as nat);
        let e = (k - 2) as nat;
        let prev = backoff_spec(p, (k - 1) as nat);
        let m = p.backoff_multiplier_milli as int;
        lemma_backoff_bounds(p, (k - 1) as nat);
        assert(m == f * 1000);
        assert(prev * m / 1000 == prev * f) by (nonlinear_arith)
            requires
                m == f * 1000,
        ;
        vstd::arithmetic::power::lemma_pow_positive(f, e);
        assert(i * pow(f, e) >= 0) by (nonlinear_arith)
            requires
                i >= 0,
                pow(f, e) > 0,
        ;
        lemma_min_scale(i * pow(f, e), p.cap(), f);
        assert(pow(f, (k - 1) as nat) == f * pow(f, e));
        assert(i * pow(f, e) * f == i * (f * pow(f, e))) by (nonlinear_arith);
    }
}

} // verus!
