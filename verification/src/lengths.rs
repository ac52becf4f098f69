use vstd::prelude::*;

verus! {

/// Which quantities a computation of lengths along a geodesic is asked
/// for.
#[derive(Clone, Copy, Debug, PartialEq, Eq, Structural)]
pub struct LengthsRequest {
    /// The distance (in units of the minor axis).
    pub distance: bool,
    /// The reduced length.
    pub reduced_length: bool,
    /// The difference of the A1 and A2 constants.
    pub m0: bool,
    /// The geodesic scale from the first point to the second.
    pub scale12: bool,
    /// The geodesic scale from the second point to the first.
    pub scale21: bool,
}

/// How the integral that the reduced length and the scales need is formed.
#[derive(Clone, Copy, Debug, PartialEq, Eq, Structural)]
pub enum IntegralRoute {
    /// Not needed.
    Unneeded,
    /// From the two sine series evaluated separately (the distance needs
    /// the first one anyway).
    Separate,
    /// From one sine series whose coefficients combine those of both.
    Combined,
}

/// Which series a computation of lengths evaluates.
#[derive(Clone, Copy, Debug, PartialEq, Eq, Structural)]
pub struct LengthsPlan {
    /// A1 and the C1 coefficients are computed.
    pub first_series: bool,
    /// A2 and the C2 coefficients are computed.
    pub second_series: bool,
    /// How the integral for the reduced quantities is formed.
    pub integral: IntegralRoute,
    /// The cosine of the arc and the scale term are computed.
    pub scales: bool,
}

/// Some reduced quantity (reduced length, `m0` or a scale) is asked for.
pub open spec fn wants_reduced(r: LengthsRequest) -> bool {
    r.reduced_length || r.m0 || r.scale12 || r.scale21
}

/// The series and routes that serve the request `r`.
pub open spec fn plan_spec(r: LengthsRequest) -> LengthsPlan {
    LengthsPlan {
        first_series: r.distance || wants_reduced(r),
        second_series: wants_reduced(r),
        integral: if !wants_reduced(r) {
            IntegralRoute::Unneeded
        } else if r.distance {
            IntegralRoute::Separate
        } else {
            IntegralRoute::Combined
        },
        scales: r.scale12 || r.scale21,
    }
}

/// Plans the series evaluations for the request `r`.
pub fn lengths_plan(r: &LengthsRequest) -> (p: LengthsPlan)
    ensures
        p == plan_spec(*r),
        p.scales == (r.scale12 || r.scale21),
        p.second_series == (r.reduced_length || r.m0 || r.scale12 || r.scale21),
        p.first_series == (r.distance || r.reduced_length || r.m0 || r.scale12 || r.scale21),
        (p.integral == IntegralRoute::Separate) == (r.distance && p.second_series),
        (p.integral == IntegralRoute::Combined) == (!r.distance && p.second_series),
{
    let reduced = r.reduced_length || r.m0 || r.scale12 || r.scale21;
    LengthsPlan {
        first_series: r.distance || reduced,
        second_series: reduced,
        integral: if !reduced {
            IntegralRoute::Unneeded
        } else if r.distance {
            IntegralRoute::Separate
        } else {
            IntegralRoute::Combined
        },
        scales: r.scale12 || r.scale21,
    }
}

/// Every quantity asked for gets what it needs: the distance the first
/// series, a reduced quantity both series and the integral, and either
/// geodesic scale the scale term; nothing beyond that is computed.
pub proof fn lemma_plan_serves_request(r: LengthsRequest)
    ensures
        r.distance ==> plan_spec(r).first_series,
        r.reduced_length || r.m0 || r.scale12 || r.scale21 ==> plan_spec(r).first_series
            && plan_spec(r).second_series && plan_spec(r).integral != IntegralRoute::Unneeded,
        plan_spec(r).scales == (r.scale12 || r.scale21),
        plan_spec(r).second_series == (r.reduced_length || r.m0 || r.scale12 || r.scale21),
        plan_spec(r).first_series == (r.distance || plan_spec(r).second_series),
        plan_spec(r).integral == IntegralRoute::Separate ==> r.distance,
        plan_spec(r).integral == IntegralRoute::Combined ==> !r.distance,
{
}

/// A plan evaluates only what is asked for and everything it needs: the
/// second series only with the first, the integral exactly when a reduced
/// quantity is asked for, and nothing for an empty request.
pub proof fn lemma_plan_is_minimal(r: LengthsRequest)
    ensures
        plan_spec(r).second_series ==> plan_spec(r).first_series,
        (plan_spec(r).integral != IntegralRoute::Unneeded) == plan_spec(r).second_series,
        plan_spec(r).scales ==> plan_spec(r).second_series,
        !r.distance && !wants_reduced(r) ==> !plan_spec(r).first_series && !plan_spec(r).scales,
{
}

} // verus!
