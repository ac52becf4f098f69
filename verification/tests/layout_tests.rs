use geodesic_routines::clenshaw::clenshaw_plan;
use geodesic_routines::layout::{
    a3_layout, c3_eval_layout, c3_layout, c4_eval_layout, c4_layout, sine_series_layout, SeriesTerm,
};

fn triples(plan: &[SeriesTerm]) -> Vec<(usize, usize, usize)> {
    plan.iter().map(|t| (t.target, t.offset, t.degree)).collect()
}

#[test]
fn sine_series_layout_matches_table() {
    let plan = sine_series_layout();
    assert_eq!(
        triples(&plan),
        vec![(1, 0, 2), (2, 4, 2), (3, 8, 1), (4, 11, 1), (5, 14, 0), (6, 16, 0)]
    );
    let last = plan[plan.len() - 1];
    assert_eq!(last.offset + last.degree + 2, 18);
}

#[test]
fn a3_layout_matches_table() {
    let plan = a3_layout();
    assert_eq!(
        triples(&plan),
        vec![(0, 0, 0), (1, 2, 1), (2, 5, 2), (3, 9, 2), (4, 13, 1), (5, 16, 0)]
    );
    let last = plan[plan.len() - 1];
    assert_eq!(last.offset + last.degree + 2, 18);
}

#[test]
fn c3_layout_matches_table() {
    let plan = c3_layout();
    let degrees: Vec<usize> = plan.iter().map(|t| t.degree).collect();
    assert_eq!(degrees, vec![0, 1, 2, 2, 1, 0, 1, 2, 2, 0, 1, 2, 0, 1, 0]);
    let targets: Vec<usize> = plan.iter().map(|t| t.target).collect();
    assert_eq!(targets, (0..15).collect::<Vec<usize>>());
    let offsets: Vec<usize> = plan.iter().map(|t| t.offset).collect();
    assert_eq!(offsets, vec![0, 2, 5, 9, 13, 16, 18, 21, 25, 29, 31, 34, 38, 40, 43]);
    let last = plan[plan.len() - 1];
    assert_eq!(last.offset + last.degree + 2, 45);
}

#[test]
fn c3_eval_layout_matches_table() {
    let plan = c3_eval_layout();
    assert_eq!(
        triples(&plan),
        vec![(1, 0, 4), (2, 5, 3), (3, 9, 2), (4, 12, 1), (5, 14, 0)]
    );
    let last = plan[plan.len() - 1];
    assert_eq!(last.offset + last.degree + 1, 15);
}

#[test]
fn layouts_stay_inside_their_tables() {
    for (plan, size, stride) in [
        (sine_series_layout(), 18, 2),
        (a3_layout(), 18, 2),
        (c3_layout(), 45, 2),
        (c3_eval_layout(), 15, 1),
        (c4_layout(), 77, 2),
        (c4_eval_layout(), 21, 1),
    ] {
        for t in &plan {
            assert!(t.offset + t.degree + stride <= size);
        }
    }
}

fn reads(n: usize, sine: bool) -> Vec<usize> {
    let plan = clenshaw_plan(n, sine);
    let mut out = Vec::new();
    if let Some(i) = plan.leading {
        out.push(i);
    }
    for k in 0..plan.pair_count {
        let (a, b) = plan.pair(k);
        out.push(a);
        out.push(b);
    }
    out
}

#[test]
fn clenshaw_sine_series_of_six_terms() {
    let plan = clenshaw_plan(6, true);
    assert_eq!(plan.leading, None);
    assert_eq!(plan.pair_count, 3);
    assert_eq!(plan.top, 7);
    assert_eq!((plan.pair(0), plan.pair(1), plan.pair(2)), ((6, 5), (4, 3), (2, 1)));
}

#[test]
fn clenshaw_sine_series_of_five_terms() {
    let plan = clenshaw_plan(5, true);
    assert_eq!(plan.leading, Some(5));
    assert_eq!(plan.pair_count, 2);
    assert_eq!((plan.pair(0), plan.pair(1)), ((4, 3), (2, 1)));
}

#[test]
fn clenshaw_cosine_series_reads_from_zero() {
    assert_eq!(reads(6, false), vec![5, 4, 3, 2, 1, 0]);
    assert_eq!(reads(5, false), vec![4, 3, 2, 1, 0]);
}

#[test]
fn clenshaw_reads_every_coefficient_once() {
    for n in 0..12 {
        for sine in [false, true] {
            let first = if sine { 1 } else { 0 };
            let expected: Vec<usize> = (first..first + n).rev().collect();
            assert_eq!(reads(n, sine), expected);
        }
    }
}

#[test]
fn c4_layout_matches_table() {
    let plan = c4_layout();
    let degrees: Vec<usize> = plan.iter().map(|t| t.degree).collect();
    assert_eq!(
        degrees,
        vec![0, 1, 2, 3, 4, 5, 0, 1, 2, 3, 4, 0, 1, 2, 3, 0, 1, 2, 0, 1, 0]
    );
    let targets: Vec<usize> = plan.iter().map(|t| t.target).collect();
    assert_eq!(targets, (0..21).collect::<Vec<usize>>());
    assert_eq!(plan[6].offset, 27);
    let last = plan[plan.len() - 1];
    assert_eq!(last.offset + last.degree + 2, 77);
}

#[test]
fn c4_eval_layout_matches_table() {
    let plan = c4_eval_layout();
    assert_eq!(
        triples(&plan),
        vec![(0, 0, 5), (1, 6, 4), (2, 11, 3), (3, 15, 2), (4, 18, 1), (5, 20, 0)]
    );
}
