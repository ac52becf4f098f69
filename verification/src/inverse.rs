use vstd::prelude::*;

verus! {

/// Signs that bring the two points of the inverse problem into the
/// canonical configuration (longitude difference not negative, the first
/// point the farther from the equator and on or south of it) and back.
/// Each sign is 1 or -1.
#[derive(Clone, Copy, Debug, PartialEq, Eq, Structural)]
pub struct Symmetry {
    /// -1 when the longitude difference was negated.
    pub lonsign: i8,
    /// -1 when the two points were exchanged.
    pub swapp: i8,
    /// Factor applied to both latitudes after the exchange.
    pub latsign: i8,
}

pub open spec fn sign_of(negative: bool) -> int {
    if negative {
        -1
    } else {
        1
    }
}

/// Symmetry of an inverse problem: `lon_negative` when the longitude
/// difference has its sign bit set, `swap` when the first latitude is the
/// smaller in magnitude (or the second is not a number), and
/// `first_lat_negative` when, after any exchange, the first latitude has
/// its sign bit set (it is then kept, else both latitudes are negated).
pub fn inverse_symmetry(lon_negative: bool, swap: bool, first_lat_negative: bool) -> (s: Symmetry)
    ensures
        s.lonsign == sign_of(lon_negative),
        s.swapp == sign_of(swap),
        s.latsign == -sign_of(first_lat_negative),
{
    Symmetry {
        lonsign: if lon_negative {
            -1
        } else {
            1
        },
        swapp: if swap {
            -1
        } else {
            1
        },
        latsign: if first_lat_negative {
            1
        } else {
            -1
        },
    }
}

impl Symmetry {
    /// Longitude sign carried through the exchange of the points.
    pub fn lonsign_after_swap(&self) -> (r: i8)
        requires
            self.lonsign == 1 || self.lonsign == -1,
            self.swapp == 1 || self.swapp == -1,
        ensures
            r == self.lonsign * self.swapp,
    {
        self.lonsign * self.swapp
    }

    /// Factors that restore the sines and the cosines of the azimuths of
    /// the canonical problem to the given one (after the azimuths of the
    /// two ends are exchanged back when `swapp` is -1).
    pub fn azimuth_signs(&self) -> (r: (i8, i8))
        requires
            self.lonsign == 1 || self.lonsign == -1,
            self.swapp == 1 || self.swapp == -1,
            self.latsign == 1 || self.latsign == -1,
        ensures
            r.0 == self.swapp * (self.lonsign * self.swapp),
            r.1 == self.swapp * self.latsign,
            r.0 == self.lonsign,
            r.0 == 1 || r.0 == -1,
            r.1 == 1 || r.1 == -1,
    {
        let lonsign_i = self.lonsign_after_swap();
        (self.swapp * lonsign_i, self.swapp * self.latsign)
    }
}

/// The restoring factors undo the reduction: each is its own inverse, and
/// the sine factor does not depend on whether the points were exchanged.
pub proof fn lemma_symmetry_restores(s: Symmetry)
    requires
        s.lonsign == 1 || s.lonsign == -1,
        s.swapp == 1 || s.swapp == -1,
        s.latsign == 1 || s.latsign == -1,
    ensures
        s.swapp * (s.lonsign * s.swapp) == s.lonsign,
        (s.swapp * s.latsign) * (s.swapp * s.latsign) == 1,
        s.lonsign * s.lonsign == 1,
        s.latsign * s.latsign == 1,
{
}

/// How the inverse problem is solved.
#[derive(Clone, Copy, Debug, PartialEq, Eq, Structural)]
pub enum InverseMethod {
    /// Along a meridian.
    Meridian,
    /// Along the equator.
    Equatorial,
    /// The starting guess is already the answer (short lines).
    ShortLine,
    /// Newton's method safeguarded by bisection.
    Search,
}

/// What the meridian computation concluded.
#[derive(Clone, Copy, Debug, PartialEq, Eq, Structural)]
pub enum MeridianOutcome {
    /// The points lie on a meridian; `snap_to_zero` when the arc is so
    /// short that it is set to zero.
    Accept { snap_to_zero: bool },
    /// A prolate ellipsoid with nearly antipodal points: not the shortest
    /// path.
    Reject,
}

/// Outcome of the meridian computation: accepted when the arc is shorter
/// than one radian or the reduced length is not negative; then snapped to
/// zero when the arc is below three times the smallest safe value, or
/// below the machine epsilon with a negative distance or reduced length.
pub fn meridian_outcome(
    arc_below_one: bool,
    reduced_length_nonneg: bool,
    arc_tiny: bool,
    arc_below_epsilon: bool,
    some_length_negative: bool,
) -> (r: MeridianOutcome)
    ensures
        r == (if arc_below_one || reduced_length_nonneg {
            MeridianOutcome::Accept {
                snap_to_zero: arc_tiny || (arc_below_epsilon && some_length_negative),
            }
        } else {
            MeridianOutcome::Reject
        }),
{
    if arc_below_one || reduced_length_nonneg {
        MeridianOutcome::Accept { snap_to_zero: arc_tiny || (arc_below_epsilon && some_length_negative) }
    } else {
        MeridianOutcome::Reject
    }
}

/// Method chosen before a starting guess is computed: the meridian when it
/// was accepted, else the equator when the first point is on it and the
/// ellipsoid is not oblate or the longitude difference is far enough from
/// a half turn; `None` when a starting guess is needed.
pub fn closed_form_method(meridian_accepted: bool, on_equator: bool) -> (m: Option<InverseMethod>)
    ensures
        m == (if meridian_accepted {
            Some(InverseMethod::Meridian)
        } else if on_equator {
            Some(InverseMethod::Equatorial)
        } else {
            None
        }),
{
    if meridian_accepted {
        Some(InverseMethod::Meridian)
    } else if on_equator {
        Some(InverseMethod::Equatorial)
    } else {
        None
    }
}

/// Method after the starting guess: the guess is final exactly when it
/// came with a non-negative arc length.
pub fn guessed_method(guess_final: bool) -> (m: InverseMethod)
    ensures
        m == (if guess_final {
            InverseMethod::ShortLine
        } else {
            InverseMethod::Search
        }),
{
    if guess_final {
        InverseMethod::ShortLine
    } else {
        InverseMethod::Search
    }
}

/// Case of the starting guess of the inverse problem.
#[derive(Clone, Copy, Debug, PartialEq, Eq, Structural)]
pub enum StartCase {
    /// Short line close to the points: the guess is the answer.
    Close,
    /// The spherical approximation is good enough as it is.
    Spherical,
    /// Nearly antipodal points: refine with the astroid.
    Antipodal,
}

/// How a nearly antipodal starting guess is refined.
#[derive(Clone, Copy, Debug, PartialEq, Eq, Structural)]
pub enum AntipodalCase {
    /// Close to the axis on an oblate (or spherical) ellipsoid.
    OblateAxis,
    /// Close to the axis on a prolate ellipsoid.
    ProlateAxis,
    /// Solve the astroid equation.
    Astroid,
}

/// Case of the starting guess: `short_line` when the points are close and
/// the line short, `close` when its arc is below the tolerance for that,
/// `regular` when the flattening is large, the points not nearly
/// antipodal, or the arc long enough.
pub fn start_case(short_line: bool, close: bool, regular: bool) -> (c: StartCase)
    ensures
        c == (if short_line && close {
            StartCase::Close
        } else if regular {
            StartCase::Spherical
        } else {
            StartCase::Antipodal
        }),
{
    if short_line && close {
        StartCase::Close
    } else if regular {
        StartCase::Spherical
    } else {
        StartCase::Antipodal
    }
}

/// Refinement of a nearly antipodal guess: near the axis (scaled
/// coordinates above their thresholds) one of two closed forms by the sign
/// of the flattening, else the astroid.
pub fn antipodal_case(oblate: bool, near_axis: bool) -> (c: AntipodalCase)
    ensures
        c == (if near_axis {
            if oblate {
                AntipodalCase::OblateAxis
            } else {
                AntipodalCase::ProlateAxis
            }
        } else {
            AntipodalCase::Astroid
        }),
{
    if near_axis {
        if oblate {
            AntipodalCase::OblateAxis
        } else {
            AntipodalCase::ProlateAxis
        }
    } else {
        AntipodalCase::Astroid
    }
}

} // verus!
