use vstd::prelude::*;

verus! {

/// Rearrangement of a (sine, cosine) pair: the pair is swapped or not,
/// then each component is negated or not.
#[derive(Clone, Copy, Debug, PartialEq, Eq, Structural)]
pub struct Rotation {
    /// The first output is the input cosine and the second the input sine.
    pub swap: bool,
    /// The first output is negated.
    pub negate_first: bool,
    /// The second output is negated.
    pub negate_second: bool,
}

/// Effect of a rotation on a (sine, cosine) pair.
pub open spec fn apply(r: Rotation, v: (int, int)) -> (int, int) {
    let (a, b) = if r.swap { (v.1, v.0) } else { (v.0, v.1) };
    (if r.negate_first { -a } else { a }, if r.negate_second { -b } else { b })
}

/// (sine, cosine) of an angle advanced by `n` quarter turns:
/// sin(t + 90) = cos t and cos(t + 90) = -sin t.
pub open spec fn quarter_turns(n: nat, v: (int, int)) -> (int, int)
    decreases n,
{
    if n == 0 {
        v
    } else {
        let w = quarter_turns((n - 1) as nat, v);
        (w.1, -w.0)
    }
}

/// Quadrant of an angle whose quotient by a quarter turn, rounded, is `q`:
/// the two low bits of `q`, that is `q` modulo 4.
pub fn quadrant_of(q: i64) -> (r: u32)
    ensures
        r < 4,
        r as int == (q as int) % 4,
{
    let b: i64 = q & 3;
    assert(b == (q as int) % 4 && 0 <= b < 4) by (bit_vector)
        requires
            b == q & 3,
    ;
    b as u32
}

/// Rearrangement that turns the (sine, cosine) of the reduced angle into
/// those of the angle `q` quarter turns further on; only `q` modulo 4
/// matters.
pub fn quarter_turn(q: u32) -> (r: Rotation)
    ensures
        forall|v: (int, int)| #[trigger] apply(r, v) == quarter_turns((q % 4) as nat, v),
{
    let k: u32 = q & 3;
    assert(k == q % 4) by (bit_vector)
        requires
            k == q & 3,
    ;
    reveal_with_fuel(quarter_turns, 4);
    if k == 0 {
        Rotation { swap: false, negate_first: false, negate_second: false }
    } else if k == 1 {
        Rotation { swap: true, negate_first: false, negate_second: true }
    } else if k == 2 {
        Rotation { swap: false, negate_first: true, negate_second: true }
    } else {
        Rotation { swap: true, negate_first: true, negate_second: false }
    }
}

/// Four quarter turns bring every pair back to itself, so turning by
/// `a` then by `b` quarter turns is turning by `a + b`, and only the count
/// modulo 4 matters.
pub proof fn lemma_quarter_turns_compose(a: nat, b: nat, v: (int, int))
    ensures
        quarter_turns(a, quarter_turns(b, v)) == quarter_turns(a + b, v),
        quarter_turns(a + b, v) == quarter_turns((a + b) % 4, v),
    decreases a,
{
    if a > 0 {
        lemma_quarter_turns_compose((a - 1) as nat, b, v);
    }
    lemma_quarter_turns_mod(a + b, v);
}

/// Turning by `n` quarter turns is turning by `n` modulo 4.
pub proof fn lemma_quarter_turns_mod(n: nat, v: (int, int))
    ensures
        quarter_turns(n, v) == quarter_turns(n % 4, v),
    decreases n,
{
    if n >= 4 {
        lemma_quarter_turns_mod((n - 4) as nat, v);
        lemma_four_turns((n - 4) as nat, v);
        assert((n - 4) as nat % 4 == n % 4);
    }
}

proof fn lemma_four_turns(m: nat, v: (int, int))
    ensures
        quarter_turns(m + 4, v) == quarter_turns(m, v),
{
    reveal_with_fuel(quarter_turns, 5);
}

/// Correction that `atan2` in degrees applies to the angle computed from
/// the folded arguments.
#[derive(Clone, Copy, Debug, PartialEq, Eq, Structural)]
pub enum AngleFold {
    /// The angle is already right.
    Keep,
    /// Subtract the angle from a half turn carrying the sign of `y`.
    FromHalfTurn,
    /// Subtract the angle from a quarter turn.
    FromQuarterTurn,
    /// Subtract a quarter turn from the angle.
    LessQuarterTurn,
}

/// Folding code of the arguments of `atan2` in degrees: 2 when `|y| > |x|`
/// (the arguments were swapped), plus 1 when the (possibly swapped) `x` is
/// negative (it was negated).
pub fn atan2_quadrant(swapped: bool, reflected: bool) -> (q: u32)
    ensures
        q == (if swapped { 2u32 } else { 0u32 }) + (if reflected { 1u32 } else { 0u32 }),
        q < 4,
{
    let mut q: u32 = 0;
    if swapped {
        q = 2;
    }
    if reflected {
        q += 1;
    }
    q
}

/// Correction for the folding code `q`.
pub fn atan2_fold(q: u32) -> (f: AngleFold)
    ensures
        f == (if q == 1 {
            AngleFold::FromHalfTurn
        } else if q == 2 {
            AngleFold::FromQuarterTurn
        } else if q == 3 {
            AngleFold::LessQuarterTurn
        } else {
            AngleFold::Keep
        }),
{
    if q == 1 {
        AngleFold::FromHalfTurn
    } else if q == 2 {
        AngleFold::FromQuarterTurn
    } else if q == 3 {
        AngleFold::LessQuarterTurn
    } else {
        AngleFold::Keep
    }
}

} // verus!
