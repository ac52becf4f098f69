use vstd::prelude::*;

verus! {

/// Order of the series expansions in the third flattening.
pub const GEODESIC_ORDER: usize = 6;

/// Number of coefficients of the A1 series.
pub const N_A1: usize = GEODESIC_ORDER;

/// Number of coefficients of the C1 series.
pub const N_C1: usize = GEODESIC_ORDER;

/// Number of coefficients of the C1' series.
pub const N_C1P: usize = GEODESIC_ORDER;

/// Number of coefficients of the A2 series.
pub const N_A2: usize = GEODESIC_ORDER;

/// Number of coefficients of the C2 series.
pub const N_C2: usize = GEODESIC_ORDER;

/// Number of coefficients of the A3 series.
pub const N_A3: usize = GEODESIC_ORDER;

/// Number of precomputed A3 coefficients held by an ellipsoid.
pub const N_A3X: usize = N_A3;

/// Number of coefficients of the C3 series.
pub const N_C3: usize = GEODESIC_ORDER;

/// Number of precomputed C3 coefficients held by an ellipsoid.
pub const N_C3X: usize = (N_C3 * (N_C3 - 1)) / 2;

/// Number of coefficients of the C4 series.
pub const N_C4: usize = GEODESIC_ORDER;

/// Number of precomputed C4 coefficients held by an ellipsoid.
pub const N_C4X: usize = (N_C4 * (N_C4 + 1)) / 2;

/// Size of the scratch arrays that hold series coefficients.
pub const N_C: usize = GEODESIC_ORDER + 1;

/// Number of terms of the C3 sine series.
pub const N_C3M1: usize = N_C3 - 1;

/// Precision in bits of the significand of a binary64 number.
pub const SIGNIFICAND_BITS: u32 = 53;

/// Number of iterations during which Newton steps are tried.
pub const MAXIT1: u32 = 20;

/// Hard bound on the number of iterations of the inverse search.
pub const MAXIT2: u32 = MAXIT1 + SIGNIFICAND_BITS + 10;

} // verus!
