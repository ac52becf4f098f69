use vstd::prelude::*;

verus! {

/// Order in which Clenshaw summation of a trigonometric series with `n`
/// coefficients reads them.  A sine series has its coefficients at
/// indices 1 to `n`, a cosine series at 0 to `n - 1`.  The recurrence
/// first reads the leading coefficient when `n` is odd, then takes
/// `pair_count` double steps downwards from `top`.
#[derive(Clone, Copy, Debug, PartialEq, Eq, Structural)]
pub struct ClenshawPlan {
    /// For an odd number of terms, the index of the top coefficient, which
    /// seeds the recurrence.
    pub leading: Option<usize>,
    /// Index just above the coefficients read by the double steps.
    pub top: usize,
    /// Number of double steps.
    pub pair_count: usize,
}

/// Index just past the last coefficient of the series.
pub open spec fn series_end(n: int, sine: bool) -> int {
    n + if sine { 1int } else { 0int }
}

/// Indices read by double step `k`: the first feeds the lower accumulator,
/// the second the upper one.
pub open spec fn pair_spec(plan: ClenshawPlan, k: int) -> (int, int) {
    (plan.top - 1 - 2 * k, plan.top - 2 - 2 * k)
}

/// The indices read, in reading order.
pub open spec fn reads(plan: ClenshawPlan) -> Seq<int> {
    let lead = match plan.leading {
        Some(i) => seq![i as int],
        None => Seq::empty(),
    };
    lead + Seq::new((2 * plan.pair_count) as nat, |i: int| plan.top - 1 - i)
}

/// Reading schedule of the Clenshaw summation of a series of `n` terms:
/// every coefficient is read exactly once, from the top index down.
pub fn clenshaw_plan(n: usize, sine: bool) -> (plan: ClenshawPlan)
    requires
        n < usize::MAX,
    ensures
        plan.leading == (if n % 2 == 1 {
            Some((series_end(n as int, sine) - 1) as usize)
        } else {
            None
        }),
        plan.pair_count == n / 2,
        plan.top == series_end(2 * (n / 2), sine),
        plan.top >= 2 * plan.pair_count,
        reads(plan) =~= Seq::new(n as nat, |i: int| series_end(n as int, sine) - 1 - i),
{
    let end: usize = if sine {
        n + 1
    } else {
        n
    };
    let plan = if n % 2 == 1 {
        ClenshawPlan { leading: Some(end - 1), top: end - 1, pair_count: n / 2 }
    } else {
        ClenshawPlan { leading: None, top: end, pair_count: n / 2 }
    };
    proof {
        let expected = Seq::new(n as nat, |i: int| series_end(n as int, sine) - 1 - i);
        let r = reads(plan);
        assert forall|i: int| 0 <= i < n implies r[i] == expected[i] by {}
    }
    plan
}

impl ClenshawPlan {
    /// Indices read by double step `k` of the recurrence.
    pub fn pair(&self, k: usize) -> (r: (usize, usize))
        requires
            2 * k + 2 <= self.top,
        ensures
            r.0 == pair_spec(*self, k as int).0,
            r.1 == pair_spec(*self, k as int).1,
    {
        (self.top - 1 - 2 * k, self.top - 2 - 2 * k)
    }
}

/// Double step `k` of a plan reads entries `2 k` and `2 k + 1` of the
/// descending run that follows the leading coefficient.
pub proof fn lemma_pair_reads(plan: ClenshawPlan, k: int)
    requires
        0 <= k < plan.pair_count,
    ensures
        ({
            let lead = if plan.leading is Some { 1int } else { 0int };
            &&& reads(plan)[lead + 2 * k] == pair_spec(plan, k).0
            &&& reads(plan)[lead + 2 * k + 1] == pair_spec(plan, k).1
        }),
{
}

} // verus!
