# geodesic_routines

Geodesic computations on an ellipsoid (direct and inverse problems, after
Karney's algorithms) and a streaming reprojection adaptor between `proj4rs`
and `geozero`.

- `src/` is the verified library. It holds the parts of the computation that
  are not floating point: the layouts of the packed series coefficient
  tables (`layout`), the reading schedule of the Clenshaw summation
  (`clenshaw`), the quadrant bookkeeping of the angle helpers (`quadrant`),
  the symmetry reduction and case analysis of the inverse problem and of its
  starting guess (`inverse`), the choice of series for the reduced lengths
  (`lengths`), the control of the Newton/bisection search of the inverse
  problem (`search`) and the orders and iteration limits (`constants`).
- `app/` holds the floating-point evaluation (`Geodesic`, `GeodesicLine`,
  `DirectResult`, `InverseResult`) driven by those verified pieces, and
  `StreamingReproject`, an implementation of `geozero::GeomProcessor` that
  calls `proj4rs`.
- `tests/` exercises the library on concrete values.
