use vstd::prelude::*;

verus! {

/// Above this many milliseconds the wait proceeds in coarse steps.
pub const COARSE_ABOVE_MS: u64 = 20_000;
/// Length of one coarse step.
pub const COARSE_STEP_MS: u64 = 15_000;
/// Above this many milliseconds (and up to the coarse bound) the wait ticks by the second.
pub const FINE_ABOVE_MS: u64 = 1_300;
/// Length of one fine tick.
pub const FINE_STEP_MS: u64 = 1_000;
/// The last, sub-second settle.
pub const SETTLE_MS: u64 = 800;

/// Fine ticks and the settle for a remaining wait of `c` milliseconds.
pub open spec fn fine_plan(c: int) -> Seq<u64>
    decreases c,
{
    if c > FINE_ABOVE_MS {
        seq![FINE_STEP_MS].add(fine_plan(c - FINE_STEP_MS))
    } else {
        seq![SETTLE_MS]
    }
}

/// The sleeps, in order, that wait out a countdown of `c` milliseconds.
pub open spec fn plan(c: int) -> Seq<u64>
    decreases c,
{
    if c > COARSE_ABOVE_MS {
        seq![COARSE_STEP_MS].add(plan(c - COARSE_STEP_MS))
    } else {
        fine_plan(c)
    }
}

/// Sum of a sequence of sleeps.
pub open spec fn total(s: Seq<u64>) -> int
    decreases s.len(),
{
    if s.len() == 0 {
        0
    } else {
        s[0] + total(s.drop_first())
    }
}

/// `n` copies of `v`.
pub open spec fn repeat(v: u64, n: nat) -> Seq<u64> {
    Seq::new(n, |i: int| v)
}

proof fn lemma_total_prepend(v: u64, s: Seq<u64>)
    ensures
        total(seq![v].add(s)) == v + total(s),
{
    assert(seq![v].add(s).drop_first() =~= s);
}

proof fn lemma_fine_plan(c: int)
    ensures
        exists|m: nat| fine_plan(c) =~= repeat(FINE_STEP_MS, m).add(seq![SETTLE_MS]),
        c > FINE_ABOVE_MS ==> c - 500 <= total(fine_plan(c)) < c + 500,
        c <= FINE_ABOVE_MS ==> total(fine_plan(c)) == SETTLE_MS,
    decreases c,
{
    if c > FINE_ABOVE_MS {
        lemma_fine_plan(c - FINE_STEP_MS);
        let m = choose|m: nat| fine_plan(c - FINE_STEP_MS) =~= repeat(FINE_STEP_MS, m).add(seq![SETTLE_MS]);
        assert(fine_plan(c) =~= repeat(FINE_STEP_MS, m + 1).add(seq![SETTLE_MS]));
        lemma_total_prepend(FINE_STEP_MS, fine_plan(c - FINE_STEP_MS));
    } else {
        assert(fine_plan(c) =~= repeat(FINE_STEP_MS, 0).add(seq![SETTLE_MS]));
        lemma_total_prepend(SETTLE_MS, Seq::empty());
        assert(seq![SETTLE_MS].add(Seq::<u64>::empty()) =~= seq![SETTLE_MS]);
        assert(total(Seq::<u64>::empty()) == 0);
    }
}

/// The plan is a run of coarse steps, then a run of one-second ticks, then the
/// settle; once past the coarse steps at most 20 s remain; and the sleeps add up
/// to the countdown within half a second (to the settle alone for a countdown
/// of 1.3 s or less).
pub proof fn lemma_plan_shape(c: int)
    ensures
        exists|k: nat, m: nat|
            #![trigger repeat(COARSE_STEP_MS, k), repeat(FINE_STEP_MS, m)]
            plan(c) =~= repeat(COARSE_STEP_MS, k).add(repeat(FINE_STEP_MS, m)).add(seq![SETTLE_MS])
            && c - COARSE_STEP_MS * k <= COARSE_ABOVE_MS,
        c > FINE_ABOVE_MS ==> c - 500 <= total(plan(c)) < c + 500,
        c <= FINE_ABOVE_MS ==> total(plan(c)) == SETTLE_MS,
    decreases c,
{
    if c > COARSE_ABOVE_MS {
        lemma_plan_shape(c - COARSE_STEP_MS);
        let (k, m) = choose|k: nat, m: nat|
            #![trigger repeat(COARSE_STEP_MS, k), repeat(FINE_STEP_MS, m)]
            plan(c - COARSE_STEP_MS) =~= repeat(COARSE_STEP_MS, k).add(repeat(FINE_STEP_MS, m)).add(seq![SETTLE_MS])
            && c - COARSE_STEP_MS - COARSE_STEP_MS * k <= COARSE_ABOVE_MS;
        assert(plan(c) =~= repeat(COARSE_STEP_MS, k + 1).add(repeat(FINE_STEP_MS, m)).add(seq![SETTLE_MS]));
        lemma_total_prepend(COARSE_STEP_MS, plan(c - COARSE_STEP_MS));
    } else {
        lemma_fine_plan(c);
        let m = choose|m: nat| fine_plan(c) =~= repeat(FINE_STEP_MS, m).add(seq![SETTLE_MS]);
        assert(plan(c) =~= repeat(COARSE_STEP_MS, 0).add(repeat(FINE_STEP_MS, m)).add(seq![SETTLE_MS]));
    }
}

/// The sleeps, in milliseconds, that wait out a countdown of `countdown_ms`
/// before the sale opens.
pub fn sleep_plan(countdown_ms: u64) -> (r: Vec<u64>)
    ensures
        r@ == plan(countdown_ms as int),
{
    let mut out: Vec<u64> = Vec::new();
    let mut c: u64 = countdown_ms;
    while c > COARSE_ABOVE_MS
        invariant
            c <= countdown_ms,
            out@.add(plan(c as int)) == plan(countdown_ms as int),
        decreases c,
    {
        let ghost before = out@;
        out.push(COARSE_STEP_MS);
        assert(before.add(plan(c as int)) =~= out@.add(plan(c - COARSE_STEP_MS)));
        c = c - COARSE_STEP_MS;
    }
    assert(plan(c as int) == fine_plan(c as int));
    while c > FINE_ABOVE_MS
        invariant
            c <= countdown_ms,
            out@.add(fine_plan(c as int)) == plan(countdown_ms as int),
        decreases c,
    {
        let ghost before = out@;
        out.push(FINE_STEP_MS);
        assert(before.add(fine_plan(c as int)) =~= out@.add(fine_plan(c - FINE_STEP_MS)));
        c = c - FINE_STEP_MS;
    }
    let ghost before = out@;
    out.push(SETTLE_MS);
    assert(before.add(fine_plan(c as int)) =~= out@);
    out
}

} // verus!
