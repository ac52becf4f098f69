use vstd::prelude::*;
use crate::constants::{GEODESIC_ORDER, N_A3, N_C1, N_C3, N_C4};

verus! {

/// One entry of a coefficient table layout: the polynomial of degree
/// `degree` whose coefficients start at `offset` of the packed table gives
/// the coefficient `target` of the series.
#[derive(Clone, Copy, Debug, PartialEq, Eq, Structural)]
pub struct SeriesTerm {
    pub target: usize,
    pub offset: usize,
    pub degree: usize,
}

/// Number of table entries that the first `k` polynomials, of the given
/// degrees, take: `stride` entries beyond the degree each (one for the
/// constant term, one more where a common divisor follows the
/// coefficients).
pub open spec fn consumed_upto(degrees: Seq<int>, stride: int, k: int) -> int
    decreases k,
{
    if k <= 0 {
        0
    } else {
        consumed_upto(degrees, stride, k - 1) + degrees[k - 1] + stride
    }
}

/// Number of table entries that all the polynomials take.
pub open spec fn consumed(degrees: Seq<int>, stride: int) -> int {
    consumed_upto(degrees, stride, degrees.len() as int)
}

/// The first `plan.len()` polynomials of the given degrees are laid out
/// one after the other, for the consecutive targets from `first`.
pub open spec fn laid_out_prefix(plan: Seq<SeriesTerm>, degrees: Seq<int>, stride: int, first: int) -> bool {
    &&& plan.len() <= degrees.len()
    &&& forall|i: int|
        0 <= i < plan.len() ==> {
            &&& (#[trigger] plan[i]).degree == degrees[i]
            &&& plan[i].offset == consumed_upto(degrees, stride, i)
            &&& plan[i].target == first + i
        }
}

/// `plan` lays out, one after the other, polynomials of the given degrees
/// for the consecutive targets from `first`.
pub open spec fn laid_out(plan: Seq<SeriesTerm>, degrees: Seq<int>, stride: int, first: int) -> bool {
    &&& laid_out_prefix(plan, degrees, stride, first)
    &&& plan.len() == degrees.len()
}

pub open spec fn min_int(a: int, b: int) -> int {
    if a <= b {
        a
    } else {
        b
    }
}

/// Degrees of the polynomials in the tables of the C1, C1' and C2 series
/// of order `n`: the coefficient of order `l` (from 1) is `eps^l` times a
/// polynomial in `eps^2` of degree `(n - l) / 2`.
pub open spec fn fourier_degrees(n: int) -> Seq<int> {
    Seq::new(n as nat, |i: int| (n - (i + 1)) / 2)
}

/// Degrees of the polynomials (in the third flattening) in the A3 table of
/// order `n`.
pub open spec fn a3_degrees(n: int) -> Seq<int> {
    Seq::new(n as nat, |k: int| min_int(k, n - 1 - k))
}

/// Degree of the polynomial that the C3 (`folded`) or C4 table of order `n`
/// holds for the coefficient `j = n - 1 - i` of a row: `min(i, j)` for C3,
/// `i` for C4.
pub open spec fn row_degree(n: int, i: int, folded: bool) -> int {
    if folded {
        min_int(i, n - 1 - i)
    } else {
        i
    }
}

/// Degrees of the polynomials of the row for order `l` of a triangular
/// table of order `n`: the coefficients `j` from `n - 1` down to `l`.
pub open spec fn row(n: int, l: int, folded: bool) -> Seq<int> {
    Seq::new((n - l) as nat, |i: int| row_degree(n, i, folded))
}

/// The rows of a triangular table for the orders from `first` to `l - 1`.
pub open spec fn rows_between(n: int, first: int, l: int, folded: bool) -> Seq<int>
    decreases l - first,
{
    if l <= first {
        Seq::empty()
    } else {
        rows_between(n, first, l - 1, folded) + row(n, l - 1, folded)
    }
}

/// Degrees of the polynomials in the C3 table of order `n` (orders 1 to
/// `n - 1`).
pub open spec fn c3_degrees(n: int) -> Seq<int> {
    rows_between(n, 1, n, true)
}

/// Degrees of the polynomials in the C4 table of order `n` (orders 0 to
/// `n - 1`).
pub open spec fn c4_degrees(n: int) -> Seq<int> {
    rows_between(n, 0, n, false)
}

/// Degrees of the polynomials (in `eps`) that give the C3 coefficients of
/// order `l` from 1 to `n - 1` out of the reduced table of an ellipsoid.
pub open spec fn c3_eval_degrees(n: int) -> Seq<int> {
    Seq::new((n - 1) as nat, |i: int| n - (i + 1) - 1)
}

/// Degrees of the polynomials (in `eps`) that give the C4 coefficients of
/// order `l` from 0 to `n - 1` out of the reduced table of an ellipsoid.
pub open spec fn c4_eval_degrees(n: int) -> Seq<int> {
    Seq::new(n as nat, |i: int| n - i - 1)
}

/// Every entry of a layout lies inside its table: the polynomial and what
/// follows it end at or before the end of the table, so reading
/// `degree + 1` coefficients from `offset`, and the divisor after them
/// where the stride is 2, stays in bounds.
pub proof fn lemma_layout_in_table(plan: Seq<SeriesTerm>, degrees: Seq<int>, stride: int, first: int, i: int)
    requires
        laid_out(plan, degrees, stride, first),
        0 <= i < plan.len(),
        stride >= 0,
        forall|k: int| 0 <= k < degrees.len() ==> degrees[k] >= 0,
    ensures
        plan[i].offset + plan[i].degree + stride <= consumed(degrees, stride),
{
    lemma_consumed_monotone(degrees, stride, i + 1, degrees.len() as int);
}

/// With non-negative degrees and stride, the entries taken grow with the
/// number of polynomials.
pub proof fn lemma_consumed_monotone(degrees: Seq<int>, stride: int, a: int, b: int)
    requires
        0 <= a <= b <= degrees.len(),
        stride >= 0,
        forall|k: int| 0 <= k < degrees.len() ==> degrees[k] >= 0,
    ensures
        0 <= consumed_upto(degrees, stride, a) <= consumed_upto(degrees, stride, b),
    decreases b,
{
    if a < b {
        lemma_consumed_monotone(degrees, stride, a, b - 1);
    } else if a > 0 {
        lemma_consumed_monotone(degrees, stride, a - 1, a - 1);
    }
}

/// Laying out two runs of polynomials one after the other takes the sum
/// of what each takes.
pub proof fn lemma_consumed_append(a: Seq<int>, b: Seq<int>, stride: int, k: int)
    requires
        0 <= k <= b.len(),
    ensures
        consumed_upto(a + b, stride, a.len() + k) == consumed(a, stride) + consumed_upto(b, stride, k),
    decreases k,
{
    if k == 0 {
        lemma_consumed_same_prefix(a + b, a, stride, a.len() as int);
    } else {
        lemma_consumed_append(a, b, stride, k - 1);
        assert((a + b)[a.len() + k - 1] == b[k - 1]);
    }
}

proof fn lemma_consumed_same_prefix(d: Seq<int>, e: Seq<int>, stride: int, k: int)
    requires
        0 <= k <= d.len(),
        k <= e.len(),
        forall|i: int| 0 <= i < k ==> d[i] == e[i],
    ensures
        consumed_upto(d, stride, k) == consumed_upto(e, stride, k),
    decreases k,
{
    if k > 0 {
        lemma_consumed_same_prefix(d, e, stride, k - 1);
    }
}

/// The rows of a triangular table up to order `a` are a prefix of those up
/// to order `b`.
proof fn lemma_rows_prefix(n: int, first: int, a: int, b: int, folded: bool)
    requires
        first <= a <= b,
    ensures
        rows_between(n, first, a, folded).len() <= rows_between(n, first, b, folded).len(),
        forall|i: int|
            0 <= i < rows_between(n, first, a, folded).len() ==> rows_between(n, first, b, folded)[i]
                == rows_between(n, first, a, folded)[i],
    decreases b - a,
{
    if a < b {
        lemma_rows_prefix(n, first, a, b - 1, folded);
        let p = rows_between(n, first, b - 1, folded);
        let r = row(n, b - 1, folded);
        assert forall|i: int| 0 <= i < p.len() implies (p + r)[i] == p[i] by {}
    }
}

/// The degrees of a triangular table of order `n` are not negative.
proof fn lemma_rows_nonneg(n: int, first: int, l: int, folded: bool)
    requires
        l <= n + 1,
        first >= 0,
    ensures
        forall|k: int| 0 <= k < rows_between(n, first, l, folded).len() ==> rows_between(n, first, l, folded)[k] >= 0,
    decreases l - first,
{
    if l > first {
        lemma_rows_nonneg(n, first, l - 1, folded);
        let a = rows_between(n, first, l - 1, folded);
        let r = row(n, l - 1, folded);
        assert forall|k: int| 0 <= k < (a + r).len() implies (a + r)[k] >= 0 by {
            if k >= a.len() {
                assert((a + r)[k] == r[k - a.len()]);
            } else {
                assert((a + r)[k] == a[k]);
            }
        }
    }
}

/// Sizes of the packed tables of the order used by this crate: 18 entries
/// for each of the C1, C1' and C2 tables and for the A3 table; 45 for the
/// C3 table, whose 15 polynomials give the 15 reduced C3 coefficients of an
/// ellipsoid, which in turn hold 5 polynomials in 15 entries; 77 for the
/// C4 table, whose 21 polynomials give the 21 reduced C4 coefficients,
/// which hold 6 polynomials.
pub proof fn lemma_table_sizes()
    ensures
        consumed(fourier_degrees(N_C1 as int), 2) == 18,
        consumed(a3_degrees(N_A3 as int), 2) == 18,
        c3_degrees(N_C3 as int).len() == 15,
        consumed(c3_degrees(N_C3 as int), 2) == 45,
        c3_eval_degrees(N_C3 as int).len() == 5,
        consumed(c3_eval_degrees(N_C3 as int), 1) == 15,
        c4_degrees(N_C4 as int).len() == 21,
        consumed(c4_degrees(N_C4 as int), 2) == 77,
        c4_eval_degrees(N_C4 as int).len() == 6,
        consumed(c4_eval_degrees(N_C4 as int), 1) == 21,
{
    reveal_with_fuel(consumed_upto, 7);
    assert(consumed(fourier_degrees(6), 2) == 18);
    assert(consumed(a3_degrees(6), 2) == 18);
    assert(consumed(c3_eval_degrees(6), 1) == 15);
    assert(consumed(c4_eval_degrees(6), 1) == 21);
    lemma_triangular_size(1, true);
    lemma_triangular_size(0, false);
}

/// Entries taken by the rows of the C3 (`folded`, from order 1) or C4
/// (from order 0) table of order 6 below order `l`.
spec fn triangular_total(folded: bool, l: int) -> int {
    if folded {
        if l <= 1 { 0 } else if l == 2 { 16 } else if l == 3 { 29 } else if l == 4 { 38 } else if l == 5 { 43 } else { 45 }
    } else {
        if l <= 0 { 0 } else if l == 1 { 27 } else if l == 2 { 47 } else if l == 3 { 61 } else if l == 4 { 70 } else if l == 5 { 75 } else { 77 }
    }
}

/// Number of polynomials in the rows of the C3 (`folded`) or C4 table of
/// order 6 below order `l`.
spec fn triangular_count(folded: bool, l: int) -> int {
    if folded {
        if l <= 1 { 0 } else if l == 2 { 5 } else if l == 3 { 9 } else if l == 4 { 12 } else if l == 5 { 14 } else { 15 }
    } else {
        if l <= 0 { 0 } else if l == 1 { 6 } else if l == 2 { 11 } else if l == 3 { 15 } else if l == 4 { 18 } else if l == 5 { 20 } else { 21 }
    }
}

/// Sizes of the rows of the C3 (`folded`, from order 1) and C4 (from order
/// 0) tables below order `l`, summed row by row.
proof fn lemma_triangular_prefix(first: int, folded: bool, l: int)
    requires
        (first == 1 && folded) || (first == 0 && !folded),
        first <= l <= 6,
    ensures
        rows_between(6, first, l, folded).len() == triangular_count(folded, l),
        consumed(rows_between(6, first, l, folded), 2) == triangular_total(folded, l),
    decreases l - first,
{
    if l > first {
        lemma_triangular_prefix(first, folded, l - 1);
        let p = rows_between(6, first, l - 1, folded);
        let r = row(6, l - 1, folded);
        assert(rows_between(6, first, l, folded) == p + r);
        lemma_consumed_append(p, r, 2, r.len() as int);
        reveal_with_fuel(consumed_upto, 7);
        assert(consumed(r, 2) == triangular_total(folded, l) - triangular_total(folded, l - 1));
    } else {
        assert(rows_between(6, first, l, folded) =~= Seq::<int>::empty());
    }
}

/// Sizes of the C3 (`folded`, from order 1) and C4 (from order 0) tables.
proof fn lemma_triangular_size(first: int, folded: bool)
    requires
        (first == 1 && folded) || (first == 0 && !folded),
    ensures
        rows_between(6, first, 6, folded).len() == if folded { 15int } else { 21int },
        consumed(rows_between(6, first, 6, folded), 2) == if folded { 45int } else { 77int },
{
    lemma_triangular_prefix(first, folded, 6);
}

proof fn lemma_push_term(plan: Seq<SeriesTerm>, degrees: Seq<int>, stride: int, first: int, t: SeriesTerm)
    requires
        laid_out_prefix(plan, degrees, stride, first),
        plan.len() < degrees.len(),
        t.degree == degrees[plan.len() as int],
        t.offset == consumed_upto(degrees, stride, plan.len() as int),
        t.target == first + plan.len(),
    ensures
        laid_out_prefix(plan.push(t), degrees, stride, first),
{
    assert forall|i: int| 0 <= i < plan.len() + 1 implies {
        &&& (#[trigger] plan.push(t)[i]).degree == degrees[i]
        &&& plan.push(t)[i].offset == consumed_upto(degrees, stride, i)
        &&& plan.push(t)[i].target == first + i
    } by {
        if i < plan.len() {
            assert(plan.push(t)[i] == plan[i]);
        }
    }
}

/// Layout shared by the C1, C1' and C2 tables: the coefficient of order
/// `l`, from 1 to 6, is `eps^l` times the polynomial of degree `(6 - l) / 2`
/// found at the returned offset, divided by the table entry that follows
/// it.
pub fn sine_series_layout() -> (plan: Vec<SeriesTerm>)
    ensures
        laid_out(plan@, fourier_degrees(N_C1 as int), 2, 1),
        consumed(fourier_degrees(N_C1 as int), 2) == 18,
{
    let ghost degrees = fourier_degrees(N_C1 as int);
    proof {
        lemma_table_sizes();
    }
    let mut plan: Vec<SeriesTerm> = Vec::new();
    let mut o: usize = 0;
    let mut l: usize = 1;
    while l <= N_C1
        invariant
            1 <= l <= N_C1 + 1,
            degrees == fourier_degrees(N_C1 as int),
            consumed(degrees, 2) == 18,
            plan@.len() == l - 1,
            laid_out_prefix(plan@, degrees, 2, 1),
            o == consumed_upto(degrees, 2, l - 1),
        decreases N_C1 + 1 - l,
    {
        let m: usize = (N_C1 - l) / 2;
        let t = SeriesTerm { target: l, offset: o, degree: m };
        proof {
            lemma_push_term(plan@, degrees, 2, 1, t);
            lemma_consumed_monotone(degrees, 2, l as int, N_C1 as int);
        }
        plan.push(t);
        o = o + m + 2;
        l = l + 1;
    }
    plan
}

/// Layout of the A3 table: the reduced A3 coefficient `k`, from 0 to 5,
/// is the polynomial in the third flattening of degree `min(k, 5 - k)`
/// found at the returned offset, divided by the table entry that follows
/// it.
pub fn a3_layout() -> (plan: Vec<SeriesTerm>)
    ensures
        laid_out(plan@, a3_degrees(N_A3 as int), 2, 0),
        consumed(a3_degrees(N_A3 as int), 2) == 18,
{
    let ghost degrees = a3_degrees(N_A3 as int);
    proof {
        lemma_table_sizes();
    }
    let mut plan: Vec<SeriesTerm> = Vec::new();
    let mut o: usize = 0;
    let mut k: usize = 0;
    while k < N_A3
        invariant
            k <= N_A3,
            degrees == a3_degrees(N_A3 as int),
            consumed(degrees, 2) == 18,
            plan@.len() == k,
            laid_out_prefix(plan@, degrees, 2, 0),
            o == consumed_upto(degrees, 2, k as int),
        decreases N_A3 - k,
    {
        let j: usize = N_A3 - 1 - k;
        let m: usize = if N_A3 - j - 1 <= j {
            N_A3 - j - 1
        } else {
            j
        };
        let t = SeriesTerm { target: k, offset: o, degree: m };
        proof {
            lemma_push_term(plan@, degrees, 2, 0, t);
            lemma_consumed_monotone(degrees, 2, k + 1, N_A3 as int);
        }
        plan.push(t);
        o = o + m + 2;
        k = k + 1;
    }
    plan
}

/// Layout of a triangular table of order 6: row `l`, from `first` to 5,
/// holds for `j` from 5 down to `l` the polynomial of degree `min(5 - j, j)`
/// (`folded`) or `5 - j`, each followed by its divisor; the reduced
/// coefficients are numbered in that order.
fn triangular_layout(first: usize, folded: bool) -> (plan: Vec<SeriesTerm>)
    requires
        (first == 1 && folded) || (first == 0 && !folded),
    ensures
        laid_out(plan@, rows_between(GEODESIC_ORDER as int, first as int, GEODESIC_ORDER as int, folded), 2, 0),
{
    let ghost n = GEODESIC_ORDER as int;
    let ghost degrees = rows_between(n, first as int, n, folded);
    proof {
        lemma_triangular_size(first as int, folded);
        lemma_rows_nonneg(n, first as int, n, folded);
    }
    let ghost size: int = if folded { 45 } else { 77 };
    let mut plan: Vec<SeriesTerm> = Vec::new();
    let mut o: usize = 0;
    let mut k: usize = 0;
    let mut l: usize = first;
    while l < GEODESIC_ORDER
        invariant
            first <= l <= GEODESIC_ORDER,
            first <= 1,
            n == GEODESIC_ORDER,
            degrees == rows_between(n, first as int, n, folded),
            consumed(degrees, 2) == size,
            size <= 77,
            degrees.len() <= 21,
            forall|i: int| 0 <= i < degrees.len() ==> degrees[i] >= 0,
            k == rows_between(n, first as int, l as int, folded).len(),
            plan@.len() == k,
            laid_out_prefix(plan@, degrees, 2, 0),
            o == consumed_upto(degrees, 2, k as int),
        decreases GEODESIC_ORDER - l,
    {
        let ghost before = rows_between(n, first as int, l as int, folded);
        let ghost r = row(n, l as int, folded);
        proof {
            lemma_rows_prefix(n, first as int, l + 1, n, folded);
            assert(rows_between(n, first as int, l + 1, folded) == before + r);
        }
        let mut j: usize = GEODESIC_ORDER;
        while j > l
            invariant
                first <= l < GEODESIC_ORDER,
                l <= j <= GEODESIC_ORDER,
                n == GEODESIC_ORDER,
                degrees == rows_between(n, first as int, n, folded),
                before == rows_between(n, first as int, l as int, folded),
                r == row(n, l as int, folded),
                rows_between(n, first as int, l + 1, folded) == before + r,
                (before + r).len() <= degrees.len(),
                forall|i: int| 0 <= i < (before + r).len() ==> degrees[i] == (before + r)[i],
                consumed(degrees, 2) == size,
                size <= 77,
                degrees.len() <= 21,
                r.len() == GEODESIC_ORDER - l,
                forall|i: int| 0 <= i < degrees.len() ==> degrees[i] >= 0,
                k == before.len() + (GEODESIC_ORDER - j),
                plan@.len() == k,
                laid_out_prefix(plan@, degrees, 2, 0),
                o == consumed_upto(degrees, 2, k as int),
            decreases j,
        {
            j = j - 1;
            let m: usize = if folded && j < GEODESIC_ORDER - j - 1 {
                j
            } else {
                GEODESIC_ORDER - j - 1
            };
            let t = SeriesTerm { target: k, offset: o, degree: m };
            proof {
                let i = GEODESIC_ORDER - 1 - j;
                assert(r[i] == m);
                assert((before + r)[before.len() + i] == r[i]);
                lemma_push_term(plan@, degrees, 2, 0, t);
                lemma_consumed_monotone(degrees, 2, k + 1, degrees.len() as int);
            }
            plan.push(t);
            o = o + m + 2;
            k = k + 1;
        }
        l = l + 1;
    }
    plan
}

/// Layout of the C3 table: row `l`, from 1 to 5, holds for `j` from 5 down
/// to `l` the polynomial of degree `min(5 - j, j)`, each followed by its
/// divisor; the reduced coefficients are numbered in that order.
pub fn c3_layout() -> (plan: Vec<SeriesTerm>)
    ensures
        laid_out(plan@, c3_degrees(N_C3 as int), 2, 0),
        plan@.len() == 15,
        consumed(c3_degrees(N_C3 as int), 2) == 45,
{
    proof {
        lemma_table_sizes();
    }
    triangular_layout(1, true)
}

/// Layout of the C4 table: row `l`, from 0 to 5, holds for `j` from 5 down
/// to `l` the polynomial of degree `5 - j`, each followed by its divisor;
/// the reduced coefficients are numbered in that order.
pub fn c4_layout() -> (plan: Vec<SeriesTerm>)
    ensures
        laid_out(plan@, c4_degrees(N_C4 as int), 2, 0),
        plan@.len() == 21,
        consumed(c4_degrees(N_C4 as int), 2) == 77,
{
    proof {
        lemma_table_sizes();
    }
    triangular_layout(0, false)
}

/// Layout of a reduced table of an ellipsoid: the coefficient of order
/// `first + i` is `eps` to that order times the polynomial in `eps` of
/// degree `count - 1 - i`, the polynomials packed one after the other.
fn reduced_layout(first: usize, count: usize) -> (plan: Vec<SeriesTerm>)
    requires
        first + count <= 7,
    ensures
        laid_out(plan@, Seq::new(count as nat, |i: int| count - 1 - i), 1, first as int),
{
    let ghost degrees = Seq::new(count as nat, |i: int| count - 1 - i);
    proof {
        reveal_with_fuel(consumed_upto, 8);
        assert(consumed(degrees, 1) <= 28);
    }
    let mut plan: Vec<SeriesTerm> = Vec::new();
    let mut o: usize = 0;
    let mut i: usize = 0;
    while i < count
        invariant
            first + count <= 7,
            i <= count,
            degrees == Seq::new(count as nat, |i: int| count - 1 - i),
            consumed(degrees, 1) <= 28,
            plan@.len() == i,
            laid_out_prefix(plan@, degrees, 1, first as int),
            o == consumed_upto(degrees, 1, i as int),
        decreases count - i,
    {
        let m: usize = count - 1 - i;
        let t = SeriesTerm { target: first + i, offset: o, degree: m };
        proof {
            lemma_push_term(plan@, degrees, 1, first as int, t);
            lemma_consumed_monotone(degrees, 1, i + 1, count as int);
        }
        plan.push(t);
        o = o + m + 1;
        i = i + 1;
    }
    plan
}

/// Layout of the reduced C3 table of an ellipsoid: the C3 coefficient of
/// order `l`, from 1 to 5, is `eps^l` times the polynomial in `eps` of
/// degree `5 - l` found at the returned offset.
pub fn c3_eval_layout() -> (plan: Vec<SeriesTerm>)
    ensures
        laid_out(plan@, c3_eval_degrees(N_C3 as int), 1, 1),
        consumed(c3_eval_degrees(N_C3 as int), 1) == 15,
{
    proof {
        lemma_table_sizes();
    }
    let plan = reduced_layout(1, N_C3 - 1);
    proof {
        assert(Seq::new((N_C3 - 1) as nat, |i: int| (N_C3 - 1) - 1 - i) =~= c3_eval_degrees(N_C3 as int));
    }
    plan
}

/// Layout of the reduced C4 table of an ellipsoid: the C4 coefficient of
/// order `l`, from 0 to 5, is `eps^l` times the polynomial in `eps` of
/// degree `5 - l` found at the returned offset.
pub fn c4_eval_layout() -> (plan: Vec<SeriesTerm>)
    ensures
        laid_out(plan@, c4_eval_degrees(N_C4 as int), 1, 0),
        consumed(c4_eval_degrees(N_C4 as int), 1) == 21,
{
    proof {
        lemma_table_sizes();
    }
    let plan = reduced_layout(0, N_C4);
    proof {
        assert(Seq::new(N_C4 as nat, |i: int| N_C4 - 1 - i) =~= c4_eval_degrees(N_C4 as int));
    }
    plan
}

} // verus!
