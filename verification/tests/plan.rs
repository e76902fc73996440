use billiard::guess::weights;
use billiard::length::{term, terms};
use billiard::trajectory::{contact, contacts};
use billiard::{Billiard, BilliardError, Contact, Curve, Fraction, Outcome, Parameter, Segment};

fn inner(at: Parameter) -> Contact {
    Contact { curve: Curve::Inner, at }
}

fn outer(at: Parameter) -> Contact {
    Contact { curve: Curve::Outer, at }
}

fn rearranged(at: Parameter, order: &[usize]) -> Parameter {
    match at {
        Parameter::Free(i) => Parameter::Free(order[i]),
        fixed => fixed,
    }
}

fn rearranged_segment(segment: &Segment, order: &[usize]) -> Segment {
    Segment {
        from: Contact { curve: segment.from.curve, at: rearranged(segment.from.at, order) },
        to: Contact { curve: segment.to.curve, at: rearranged(segment.to.at, order) },
    }
}

fn usable(dimension: usize) -> Outcome {
    Outcome { dimension, finite: true, singular: false, no_longer: true }
}

#[test]
fn opposite_swaps_the_curves() {
    assert_eq!(Curve::Inner.opposite(), Curve::Outer);
    assert_eq!(Curve::Outer.opposite(), Curve::Inner);
}

#[test]
fn functional_without_collisions_is_one_segment() {
    assert_eq!(
        terms(0),
        vec![Segment { from: inner(Parameter::Initial), to: outer(Parameter::Final) }]
    );
}

#[test]
fn functional_with_one_collision() {
    assert_eq!(
        terms(1),
        vec![
            Segment { from: inner(Parameter::Initial), to: outer(Parameter::Free(0)) },
            Segment { from: outer(Parameter::Free(0)), to: inner(Parameter::Final) },
        ]
    );
}

#[test]
fn functional_with_two_collisions() {
    assert_eq!(
        terms(2),
        vec![
            Segment { from: inner(Parameter::Initial), to: outer(Parameter::Free(0)) },
            Segment { from: inner(Parameter::Free(0)), to: outer(Parameter::Free(1)) },
            Segment { from: inner(Parameter::Free(1)), to: outer(Parameter::Final) },
        ]
    );
}

#[test]
fn functional_with_three_collisions() {
    assert_eq!(
        terms(3),
        vec![
            Segment { from: inner(Parameter::Initial), to: outer(Parameter::Free(0)) },
            Segment { from: inner(Parameter::Free(0)), to: outer(Parameter::Free(1)) },
            Segment { from: outer(Parameter::Free(1)), to: inner(Parameter::Free(2)) },
            Segment { from: outer(Parameter::Free(2)), to: inner(Parameter::Final) },
        ]
    );
}

#[test]
fn functional_with_four_collisions() {
    assert_eq!(
        terms(4),
        vec![
            Segment { from: inner(Parameter::Initial), to: outer(Parameter::Free(0)) },
            Segment { from: inner(Parameter::Free(0)), to: outer(Parameter::Free(1)) },
            Segment { from: outer(Parameter::Free(1)), to: inner(Parameter::Free(2)) },
            Segment { from: inner(Parameter::Free(2)), to: outer(Parameter::Free(3)) },
            Segment { from: inner(Parameter::Free(3)), to: outer(Parameter::Final) },
        ]
    );
}

#[test]
fn single_terms_agree_with_the_list() {
    for n in 0..12usize {
        let all = terms(n);
        assert_eq!(all.len(), n + 1);
        for k in 0..=n {
            assert_eq!(term(n, k), all[k]);
        }
    }
}

#[test]
fn every_segment_crosses_to_the_next_parameter() {
    for n in 1..12usize {
        let all = terms(n);
        for k in 0..=n {
            assert_ne!(all[k].from.curve, all[k].to.curve);
            let from = if k == 0 { Parameter::Initial } else { Parameter::Free(k - 1) };
            let to = if k == n { Parameter::Final } else { Parameter::Free(k) };
            assert_eq!(all[k].from.at, from);
            assert_eq!(all[k].to.at, to);
        }
    }
}

#[test]
fn no_swap_of_two_collisions_keeps_the_functional() {
    for n in 2..9usize {
        let all = terms(n);
        for i in 0..n {
            for j in (i + 1)..n {
                let mut order: Vec<usize> = (0..n).collect();
                order.swap(i, j);
                let moved: Vec<Segment> =
                    all.iter().map(|segment| rearranged_segment(segment, &order)).collect();
                assert!(moved.iter().any(|segment| !all.contains(segment)));
            }
        }
    }
}

#[test]
fn reversal_and_rotation_do_not_keep_the_functional() {
    for n in 2..9usize {
        let all = terms(n);
        let reversed: Vec<usize> = (0..n).rev().collect();
        let rotated: Vec<usize> = (0..n).map(|i| (i + 1) % n).collect();
        for order in [reversed, rotated] {
            let moved: Vec<Segment> =
                all.iter().map(|segment| rearranged_segment(segment, &order)).collect();
            assert!(moved.iter().any(|segment| !all.contains(segment)));
        }
        let unmoved: Vec<usize> = (0..n).collect();
        let same: Vec<Segment> =
            all.iter().map(|segment| rearranged_segment(segment, &unmoved)).collect();
        assert_eq!(same, all);
    }
}

#[test]
fn guess_without_collisions_is_empty() {
    assert_eq!(weights(0), Vec::<Fraction>::new());
}

#[test]
fn guess_for_one_collision_is_the_midpoint() {
    assert_eq!(weights(1), vec![Fraction { numerator: 1, denominator: 2 }]);
}

#[test]
fn guess_for_three_collisions_is_the_quarters() {
    assert_eq!(
        weights(3),
        vec![
            Fraction { numerator: 1, denominator: 4 },
            Fraction { numerator: 2, denominator: 4 },
            Fraction { numerator: 3, denominator: 4 },
        ]
    );
}

#[test]
fn guess_lies_strictly_inside_and_increases() {
    for n in 1..40usize {
        let all = weights(n);
        assert_eq!(all.len(), n);
        for i in 0..n {
            assert!(0 < all[i].numerator);
            assert!(all[i].numerator < all[i].denominator);
            assert_eq!(all[i].denominator, n + 1);
            if i > 0 {
                assert_eq!(all[i].numerator, all[i - 1].numerator + 1);
            }
        }
    }
}

#[test]
fn rebuilt_trajectory_starts_on_the_inner_curve_and_alternates() {
    assert_eq!(contacts(0), Vec::<Contact>::new());
    assert_eq!(contacts(1), vec![inner(Parameter::Free(0))]);
    assert_eq!(contacts(2), vec![inner(Parameter::Free(0)), outer(Parameter::Free(1))]);
    assert_eq!(
        contacts(5),
        vec![
            inner(Parameter::Free(0)),
            outer(Parameter::Free(1)),
            inner(Parameter::Free(2)),
            outer(Parameter::Free(3)),
            inner(Parameter::Free(4)),
        ]
    );
    assert_eq!(contact(0), inner(Parameter::Free(0)));
    assert_eq!(contact(7), outer(Parameter::Free(7)));
    assert_eq!(contact(usize::MAX), outer(Parameter::Free(usize::MAX)));
}

#[test]
fn rebuilt_trajectory_differs_from_the_functional_at_both_ends() {
    for n in 1..12usize {
        let all = terms(n);
        let placed = contacts(n);
        assert_ne!(all[0].to.curve, placed[0].curve);
        assert_ne!(all[n].from.curve, placed[n - 1].curve);
        for i in 1..n {
            assert_eq!(all[i].to, placed[i]);
            assert_eq!(all[i].from, placed[i - 1]);
        }
    }
}

#[test]
fn rules_give_the_same_answer_each_time() {
    for n in 0..9usize {
        assert_eq!(terms(n), terms(n));
        assert_eq!(weights(n), weights(n));
        assert_eq!(contacts(n), contacts(n));
    }
    let table = Billiard::new(4).unwrap();
    assert_eq!(table.trajectory(&usable(4)), table.trajectory(&usable(4)));
    assert_eq!(table.trajectory(&usable(3)), table.trajectory(&usable(3)));
}

#[test]
fn negative_count_is_rejected() {
    assert_eq!(Billiard::new(-1).err(), Some(BilliardError::NegativeCollisions));
    assert_eq!(Billiard::new(i64::MIN).err(), Some(BilliardError::NegativeCollisions));
}

#[test]
fn count_is_kept() {
    assert_eq!(Billiard::new(0).unwrap().num_collisions(), 0);
    assert_eq!(Billiard::new(7).unwrap().num_collisions(), 7);
}

#[test]
fn configuration_hands_out_the_rules_for_its_count() {
    let table = Billiard::new(3).unwrap();
    assert_eq!(table.initial_guess(), weights(3));
    assert_eq!(table.length_terms(), terms(3));
    assert_eq!(table.trajectory(&usable(3)), Ok(contacts(3)));
}

#[test]
fn configuration_without_collisions() {
    let table = Billiard::new(0).unwrap();
    assert_eq!(table.initial_guess(), Vec::<Fraction>::new());
    assert_eq!(
        table.length_terms(),
        vec![Segment { from: inner(Parameter::Initial), to: outer(Parameter::Final) }]
    );
    assert_eq!(table.trajectory(&usable(0)), Ok(Vec::<Contact>::new()));
}

#[test]
fn usable_outcome_gives_the_collisions() {
    let table = Billiard::new(2).unwrap();
    assert_eq!(
        table.trajectory(&usable(2)),
        Ok(vec![inner(Parameter::Free(0)), outer(Parameter::Free(1))])
    );
}

#[test]
fn wrong_dimension_is_an_optimization_failure() {
    let table = Billiard::new(2).unwrap();
    assert_eq!(table.trajectory(&usable(1)), Err(BilliardError::OptimizationFailure));
    assert_eq!(table.trajectory(&usable(3)), Err(BilliardError::OptimizationFailure));
}

#[test]
fn parameter_that_is_not_finite_is_an_optimization_failure() {
    let table = Billiard::new(2).unwrap();
    let outcome = Outcome { finite: false, ..usable(2) };
    assert_eq!(table.trajectory(&outcome), Err(BilliardError::OptimizationFailure));
}

#[test]
fn longer_path_is_an_optimization_failure() {
    let table = Billiard::new(2).unwrap();
    let outcome = Outcome { no_longer: false, ..usable(2) };
    assert_eq!(table.trajectory(&outcome), Err(BilliardError::OptimizationFailure));
}

#[test]
fn vanished_direction_field_is_a_singularity() {
    let table = Billiard::new(2).unwrap();
    let outcome = Outcome { singular: true, ..usable(2) };
    assert_eq!(table.trajectory(&outcome), Err(BilliardError::Singularity));
}

#[test]
fn singularity_comes_before_any_other_failure() {
    let table = Billiard::new(2).unwrap();
    let outcome = Outcome { dimension: 5, finite: false, singular: true, no_longer: false };
    assert_eq!(table.trajectory(&outcome), Err(BilliardError::Singularity));
}
