use geodesic_routines::quadrant::{atan2_fold, atan2_quadrant, quadrant_of, quarter_turn, AngleFold, Rotation};

fn apply(r: Rotation, v: (i64, i64)) -> (i64, i64) {
    let (a, b) = if r.swap { (v.1, v.0) } else { (v.0, v.1) };
    (
        if r.negate_first { -a } else { a },
        if r.negate_second { -b } else { b },
    )
}

fn one_turn(v: (i64, i64)) -> (i64, i64) {
    (v.1, -v.0)
}

#[test]
fn quadrant_of_wraps_negative_quotients() {
    assert_eq!(quadrant_of(0), 0);
    assert_eq!(quadrant_of(1), 1);
    assert_eq!(quadrant_of(2), 2);
    assert_eq!(quadrant_of(3), 3);
    assert_eq!(quadrant_of(4), 0);
    assert_eq!(quadrant_of(-1), 3);
    assert_eq!(quadrant_of(-3), 1);
    assert_eq!(quadrant_of(-4), 0);
    assert_eq!(quadrant_of(i64::MIN), 0);
    assert_eq!(quadrant_of(i64::MAX), 3);
}

#[test]
fn quarter_turn_table() {
    let v = (3, 7);
    assert_eq!(apply(quarter_turn(0), v), (3, 7));
    assert_eq!(apply(quarter_turn(1), v), (7, -3));
    assert_eq!(apply(quarter_turn(2), v), (-3, -7));
    assert_eq!(apply(quarter_turn(3), v), (-7, 3));
    assert_eq!(quarter_turn(5), quarter_turn(1));
}

#[test]
fn quarter_turns_compose() {
    let v = (2, -5);
    for a in 0u32..8 {
        for b in 0u32..8 {
            let two_steps = apply(quarter_turn(a), apply(quarter_turn(b), v));
            assert_eq!(two_steps, apply(quarter_turn(a + b), v));
        }
    }
    let mut w = v;
    for n in 0u32..9 {
        assert_eq!(apply(quarter_turn(n), v), w);
        w = one_turn(w);
    }
}

#[test]
fn sine_and_cosine_of_whole_quarter_turns() {
    // sin and cos of 0 degrees are (0, 1); each quotient q gives those of 90 q.
    let expected = [(0, 1), (1, 0), (0, -1), (-1, 0)];
    for q in -8i64..8 {
        let r = quarter_turn(quadrant_of(q));
        assert_eq!(apply(r, (0, 1)), expected[q.rem_euclid(4) as usize]);
    }
}

#[test]
fn atan2_folding_codes() {
    assert_eq!(atan2_quadrant(false, false), 0);
    assert_eq!(atan2_quadrant(false, true), 1);
    assert_eq!(atan2_quadrant(true, false), 2);
    assert_eq!(atan2_quadrant(true, true), 3);
    assert_eq!(atan2_fold(0), AngleFold::Keep);
    assert_eq!(atan2_fold(1), AngleFold::FromHalfTurn);
    assert_eq!(atan2_fold(2), AngleFold::FromQuarterTurn);
    assert_eq!(atan2_fold(3), AngleFold::LessQuarterTurn);
}

#[test]
fn atan2_folding_recovers_angles() {
    // Reference angle from f64::atan2, in degrees, against the folded form.
    let pts = [(1.0f64, 2.0f64), (2.0, 1.0), (1.0, -2.0), (2.0, -1.0), (-1.0, -2.0), (-2.0, -1.0), (-1.0, 2.0), (-2.0, 1.0)];
    for (y, x) in pts {
        let (mut yy, mut xx) = (y, x);
        let swapped = yy.abs() > xx.abs();
        if swapped {
            std::mem::swap(&mut yy, &mut xx);
        }
        let reflected = xx.is_sign_negative();
        if reflected {
            xx = -xx;
        }
        let ang = yy.atan2(xx).to_degrees();
        let folded = match atan2_fold(atan2_quadrant(swapped, reflected)) {
            AngleFold::Keep => ang,
            AngleFold::FromHalfTurn => 180f64.copysign(yy) - ang,
            AngleFold::FromQuarterTurn => 90.0 - ang,
            AngleFold::LessQuarterTurn => ang - 90.0,
        };
        assert!((folded - y.atan2(x).to_degrees()).abs() < 1e-12, "({y}, {x})");
    }
}
