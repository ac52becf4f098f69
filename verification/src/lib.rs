//! Integer and decision logic of the geodesic routines (after Karney's
//! algorithms): the layouts of the series coefficient tables and the
//! reading order of their summation, the quadrant bookkeeping of the angle
//! helpers, the symmetry and case analysis of the inverse problem, the
//! choice of series for the lengths, and the control of the
//! Newton/bisection search of the inverse problem.
pub mod clenshaw;
pub mod constants;
pub mod inverse;
pub mod layout;
pub mod lengths;
pub mod quadrant;
pub mod search;
