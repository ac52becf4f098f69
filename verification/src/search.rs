use vstd::prelude::*;
use crate::constants::{MAXIT1, MAXIT2};

verus! {

/// Sign of the residual of the azimuth equation at the current guess.
#[derive(Clone, Copy, Debug, PartialEq, Eq, Structural)]
pub enum Sign {
    Positive,
    Negative,
    /// Zero or not a number.
    Neither,
}

/// What one evaluation of the longitude residual tells the search.
#[derive(Clone, Copy, Debug, PartialEq, Eq, Structural)]
pub struct Probe {
    /// The residual is small enough (or not a number): the search is done.
    pub converged: bool,
    /// Sign of the residual.
    pub sign: Sign,
    /// The guess lies beyond the upper end of the bracket.
    pub above_upper: bool,
    /// The guess lies beyond the lower end of the bracket.
    pub below_lower: bool,
    /// The derivative of the residual is positive.
    pub slope_positive: bool,
    /// The Newton step is shorter than a half turn and keeps the azimuth's
    /// sine positive.
    pub newton_acceptable: bool,
    /// The residual is below sixteen units in the last place.
    pub residual_tiny: bool,
}

/// Which end of the bracket the current guess replaces.
#[derive(Clone, Copy, Debug, PartialEq, Eq, Structural)]
pub enum BracketUpdate {
    Upper,
    Lower,
    Keep,
}

/// Next move of the search.
#[derive(Clone, Copy, Debug, PartialEq, Eq, Structural)]
pub enum Decision {
    /// Leave the loop with the current guess.
    Stop,
    /// Update the bracket, then take the Newton step.
    Newton(BracketUpdate),
    /// Update the bracket, then bisect it.
    Bisect(BracketUpdate),
}

/// Counters and flags of the search for the azimuth in the inverse problem.
#[derive(Clone, Copy, Debug, PartialEq, Eq, Structural)]
pub struct SearchState {
    /// Number of completed steps.
    pub numit: u32,
    /// The last step was a Newton step with a tiny residual.
    pub tripn: bool,
    /// The bracket has collapsed.
    pub tripb: bool,
}

/// The states that the search can reach.
pub open spec fn wf(s: SearchState) -> bool {
    s.numit <= MAXIT2
}

/// Bracket update for a probe in state `s`.
pub open spec fn bracket_spec(s: SearchState, p: Probe) -> BracketUpdate {
    if p.sign == Sign::Positive && (s.numit > MAXIT1 || p.above_upper) {
        BracketUpdate::Upper
    } else if p.sign == Sign::Negative && (s.numit > MAXIT1 || p.below_lower) {
        BracketUpdate::Lower
    } else {
        BracketUpdate::Keep
    }
}

/// Decision for a probe in state `s`.
pub open spec fn decide_spec(s: SearchState, p: Probe) -> Decision {
    if s.tripb || p.converged || s.numit == MAXIT2 {
        Decision::Stop
    } else if s.numit < MAXIT1 && p.slope_positive && p.newton_acceptable {
        Decision::Newton(bracket_spec(s, p))
    } else {
        Decision::Bisect(bracket_spec(s, p))
    }
}

/// Bracket update of a step decision (`None` when the search stops).
pub open spec fn bracket_of(d: Decision) -> Option<BracketUpdate> {
    match d {
        Decision::Stop => None,
        Decision::Newton(b) => Some(b),
        Decision::Bisect(b) => Some(b),
    }
}

/// State after a Newton step taken on probe `p`.
pub open spec fn after_newton_spec(s: SearchState, p: Probe) -> SearchState {
    SearchState { numit: (s.numit + 1) as u32, tripn: p.residual_tiny, tripb: s.tripb }
}

/// State after a bisection whose new bracket has collapsed or not.
pub open spec fn after_bisection_spec(s: SearchState, collapsed: bool) -> SearchState {
    SearchState { numit: (s.numit + 1) as u32, tripn: false, tripb: collapsed }
}

/// State after `p` was probed and, for a bisection, the bracket was found
/// collapsed or not (`None` when the search stops).
pub open spec fn transition(s: SearchState, p: Probe, collapsed: bool) -> Option<SearchState> {
    match decide_spec(s, p) {
        Decision::Stop => None,
        Decision::Newton(_) => Some(after_newton_spec(s, p)),
        Decision::Bisect(_) => Some(after_bisection_spec(s, collapsed)),
    }
}

/// The search goes on through every probe of `probes` without stopping.
pub open spec fn runs_through(s: SearchState, probes: Seq<Probe>, collapses: Seq<bool>) -> bool
    decreases probes.len(),
{
    if probes.len() == 0 {
        true
    } else {
        match transition(s, probes[0], collapses[0]) {
            None => false,
            Some(t) => runs_through(t, probes.drop_first(), collapses.drop_first()),
        }
    }
}

impl SearchState {
    /// State before the first probe.
    pub fn start() -> (s: SearchState)
        ensures
            s == (SearchState { numit: 0, tripn: false, tripb: false }),
            wf(s),
    {
        SearchState { numit: 0, tripn: false, tripb: false }
    }

    /// Whether the next evaluation must also compute the derivative of the
    /// residual.
    pub fn wants_derivative(&self) -> (b: bool)
        ensures
            b == (self.numit < MAXIT1),
    {
        self.numit < MAXIT1
    }

    /// Multiple of the machine epsilon below which the residual counts as
    /// converged.
    pub fn tolerance_multiple(&self) -> (m: u32)
        ensures
            m == (if self.tripn { 8u32 } else { 1u32 }),
    {
        if self.tripn {
            8
        } else {
            1
        }
    }

    /// Decides what to do with the current guess after it was probed.
    pub fn decide(&self, p: &Probe) -> (d: Decision)
        ensures
            d == decide_spec(*self, *p),
            wf(*self) && d != Decision::Stop ==> self.numit < MAXIT2,
            (d == Decision::Stop) == (self.tripb || p.converged || self.numit == MAXIT2),
            (d is Newton) == (!(self.tripb || p.converged || self.numit == MAXIT2) && self.numit
                < MAXIT1 && p.slope_positive && p.newton_acceptable),
            bracket_of(d) matches Some(b) ==> {
                &&& p.sign == Sign::Positive && (p.above_upper || self.numit > MAXIT1) ==> b
                    == BracketUpdate::Upper
                &&& p.sign == Sign::Negative && (p.below_lower || self.numit > MAXIT1) ==> b
                    == BracketUpdate::Lower
                &&& b == BracketUpdate::Upper ==> p.sign == Sign::Positive
                &&& b == BracketUpdate::Lower ==> p.sign == Sign::Negative
            },
    {
        let bracket = if p.sign == Sign::Positive && (self.numit > MAXIT1 || p.above_upper) {
            BracketUpdate::Upper
        } else if p.sign == Sign::Negative && (self.numit > MAXIT1 || p.below_lower) {
            BracketUpdate::Lower
        } else {
            BracketUpdate::Keep
        };
        if self.tripb || p.converged || self.numit == MAXIT2 {
            Decision::Stop
        } else if self.numit < MAXIT1 && p.slope_positive && p.newton_acceptable {
            Decision::Newton(bracket)
        } else {
            Decision::Bisect(bracket)
        }
    }

    /// State after a Newton step taken on probe `p`.
    pub fn after_newton(&self, p: &Probe) -> (t: SearchState)
        requires
            self.numit < MAXIT2,
        ensures
            t == after_newton_spec(*self, *p),
            t.numit == self.numit + 1,
            wf(t),
    {
        SearchState { numit: self.numit + 1, tripn: p.residual_tiny, tripb: self.tripb }
    }

    /// State after a bisection; `collapsed` tells whether the new bracket
    /// is narrower than the tolerance.
    pub fn after_bisection(&self, collapsed: bool) -> (t: SearchState)
        requires
            self.numit < MAXIT2,
        ensures
            t == after_bisection_spec(*self, collapsed),
            t.numit == self.numit + 1,
            wf(t),
    {
        SearchState { numit: self.numit + 1, tripn: false, tripb: collapsed }
    }
}

/// From any reachable state the search cannot go on for more than
/// `MAXIT2 - numit` further probes: started afresh it evaluates the
/// residual at most `MAXIT2 + 1` times.
pub proof fn lemma_search_is_bounded(s: SearchState, probes: Seq<Probe>, collapses: Seq<bool>)
    requires
        wf(s),
        probes.len() <= collapses.len(),
        runs_through(s, probes, collapses),
    ensures
        s.numit + probes.len() <= MAXIT2,
    decreases probes.len(),
{
    if probes.len() > 0 {
        let t = transition(s, probes[0], collapses[0]).unwrap();
        lemma_search_is_bounded(t, probes.drop_first(), collapses.drop_first());
    }
}

/// Newton steps are only taken during the first `MAXIT1` iterations, and
/// only where the derivative was asked for.
pub proof fn lemma_newton_only_early(s: SearchState, p: Probe)
    ensures
        decide_spec(s, p) is Newton ==> s.numit < MAXIT1,
{
}

/// The search stops exactly when the residual has converged (whatever its
/// sign), the bracket has collapsed, or the iteration bound is reached.
pub proof fn lemma_stop_exactly_when(s: SearchState, p: Probe)
    ensures
        p.converged ==> decide_spec(s, p) == Decision::Stop,
        s.numit == MAXIT2 ==> decide_spec(s, p) == Decision::Stop,
        decide_spec(s, p) == Decision::Stop ==> s.tripb || p.converged || s.numit == MAXIT2,
{
}

/// A Newton step is taken exactly when the search goes on, fewer than
/// `MAXIT1` iterations are done, the derivative is positive and the step
/// is acceptable; otherwise a going search bisects.
pub proof fn lemma_newton_exactly_when(s: SearchState, p: Probe)
    requires
        !s.tripb,
        !p.converged,
        s.numit != MAXIT2,
    ensures
        decide_spec(s, p) is Newton <==> (s.numit < MAXIT1 && p.slope_positive && p.newton_acceptable),
        decide_spec(s, p) is Bisect <==> !(s.numit < MAXIT1 && p.slope_positive && p.newton_acceptable),
{
}

/// A residual replaces the end of the bracket on its own side when the
/// guess lies beyond that end (or after `MAXIT1` iterations), whatever the
/// flag of the other end; a residual of no definite sign keeps the
/// bracket, and each end is only replaced by a residual of its sign.
pub proof fn lemma_bracket_by_side(s: SearchState, p: Probe)
    ensures
        p.sign == Sign::Positive && (p.above_upper || s.numit > MAXIT1) ==> bracket_spec(s, p)
            == BracketUpdate::Upper,
        p.sign == Sign::Negative && (p.below_lower || s.numit > MAXIT1) ==> bracket_spec(s, p)
            == BracketUpdate::Lower,
        p.sign == Sign::Neither ==> bracket_spec(s, p) == BracketUpdate::Keep,
        bracket_spec(s, p) == BracketUpdate::Upper ==> p.sign == Sign::Positive,
        bracket_spec(s, p) == BracketUpdate::Lower ==> p.sign == Sign::Negative,
        p.sign == Sign::Positive && !p.above_upper && s.numit <= MAXIT1 ==> bracket_spec(s, p)
            == BracketUpdate::Keep,
        p.sign == Sign::Negative && !p.below_lower && s.numit <= MAXIT1 ==> bracket_spec(s, p)
            == BracketUpdate::Keep,
        bracket_of(decide_spec(s, p)) matches Some(b) ==> b == bracket_spec(s, p),
{
}

/// Once the bracket has collapsed, the next probe ends the search.
pub proof fn lemma_collapse_stops(s: SearchState, p: Probe)
    requires
        s.tripb,
    ensures
        decide_spec(s, p) == Decision::Stop,
{
}

/// After `MAXIT1` iterations every residual of definite sign narrows the
/// bracket on its side.
pub proof fn lemma_late_bracketing(s: SearchState, p: Probe)
    requires
        s.numit > MAXIT1,
    ensures
        p.sign == Sign::Positive ==> bracket_spec(s, p) == BracketUpdate::Upper,
        p.sign == Sign::Negative ==> bracket_spec(s, p) == BracketUpdate::Lower,
{
}

} // verus!
