use genos::points::Points;
use genos::Score;

#[test]
fn default_score() {
    let score = Score::default();
    assert_eq!(score.received(), Points::new(0));
    assert_eq!(score.possible(), Points::new(0));
}

#[test]
fn zero_points() {
    let score = Score::zero_points(Points::new(12));
    assert_eq!(score.received(), Points::new(0));
    assert_eq!(score.possible(), Points::new(12));
}

#[test]
fn points_lost() {
    let score = Score::new(Points::new(3), Points::new(5));
    assert_eq!(score.points_lost(), Points::new(2));
}

#[test]
fn add_score() {
    let a = Score::default();
    let b = Score::new(Points::new(1), Points::new(1));
    let c = Score::new(Points::new(2), Points::new(3));

    assert_eq!(a.add(b), Score::new(Points::new(1), Points::new(1)));
    assert_eq!(b.add(c), Score::new(Points::new(3), Points::new(4)));
    assert_eq!(a.add(b).add(c), Score::new(Points::new(3), Points::new(4)));
}

#[test]
fn full_points_is_full() {
    let score = Score::full_points(Points::new(7));
    assert!(score.received_full_points());
    let score = Score::zero_points(Points::new(7));
    assert!(!score.received_full_points());
}

#[test]
fn remove_points_saturates() {
    let score = Score::full_points(Points::new(2));
    let removed = score.remove_points(Points::new(5));
    assert_eq!(removed.received(), Points::new(0));
    assert_eq!(removed.possible(), Points::new(2));
}
