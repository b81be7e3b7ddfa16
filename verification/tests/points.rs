use genos::points::Points;
use genos::PointQuantity;

#[test]
fn new_points_from_int() {
    let _points: Points = Points::new(23);
}

#[test]
fn point_inner_correct() {
    let points = Points::parse("4.25").unwrap();
    assert_eq!(points.hundredths(), 425);

    let points = Points::parse("0.50").unwrap();
    assert_eq!(points.hundredths(), 50);
}

#[test]
fn adding_points() {
    let res = Points::new(4).add(Points::parse("1.25").unwrap());
    assert_eq!(res, Points::parse("5.25").unwrap());
}

#[test]
fn subtracting_points() {
    let res = Points::new(6).sub(Points::new(3));
    assert_eq!(res, Points::new(3));

    let res = Points::new(4).sub(Points::new(4));
    assert_eq!(res, Points::default());
}

#[test]
fn parse_success_float_from_toml() {
    Points::parse("0.25").unwrap();
}

#[test]
fn parse_success_int_from_toml() {
    Points::parse("42").unwrap();
}

#[test]
fn parse_fail_points_incorrect_precision() {
    assert!(Points::parse("4.255").is_none());
}

#[test]
fn parse_fail_points_negative() {
    assert!(Points::parse("-1.25").is_none());
}

#[test]
fn parse_fail_points_not_multiple_025() {
    assert!(Points::parse("1.33").is_none());
}

#[test]
fn serialize_points() {
    let points = Points::new(42);
    assert_eq!(points.render(), "42.00");
}

#[test]
fn render_has_two_decimals() {
    assert_eq!(Points::parse("4.25").unwrap().render(), "4.25");
    assert_eq!(Points::parse("0.5").unwrap().render(), "0.50");
    assert_eq!(Points::new(0).render(), "0.00");
    assert_eq!(Points::parse("12.75").unwrap().render(), "12.75");
}

#[test]
fn render_parse_round_trip() {
    for text in ["0.00", "0.25", "1.50", "4.25", "100.75", "12.00"] {
        let p = Points::parse(text).unwrap();
        assert_eq!(Points::parse(&p.render()), Some(p));
    }
}

#[test]
fn add_then_sub_gives_original() {
    let p = Points::parse("4.25").unwrap();
    let q = Points::parse("1.75").unwrap();
    assert_eq!(p.add(q).sub(q), p);
}

#[test]
fn saturating_sub_stops_at_zero() {
    let p = Points::new(2);
    let q = Points::new(5);
    assert_eq!(p.saturating_sub(q), Points::new(0));
    assert_eq!(q.saturating_sub(p), Points::new(3));
}

#[test]
fn from_hundredths_accepts_quarters_only() {
    assert!(Points::from_hundredths(425).is_some());
    assert!(Points::from_hundredths(0).is_some());
    assert!(Points::from_hundredths(30).is_none());
    assert!(Points::from_hundredths(101).is_none());
}

#[test]
fn point_quantity_full_points_absorbs() {
    let partial = PointQuantity::Partial(Points::new(1));
    let full = PointQuantity::FullPoints;
    assert_eq!(partial.add(full), PointQuantity::FullPoints);
    assert_eq!(full.add(partial), PointQuantity::FullPoints);
    assert_eq!(full.add(full), PointQuantity::FullPoints);
    assert_eq!(
        partial.add(partial),
        PointQuantity::Partial(Points::new(2))
    );
}

#[test]
fn point_quantity_renders() {
    assert_eq!(PointQuantity::FullPoints.render(), "fullpoints");
    assert_eq!(
        PointQuantity::Partial(Points::parse("2.25").unwrap()).render(),
        "2.25"
    );
    assert_eq!(PointQuantity::zero().render(), "0.00");
}

#[test]
fn point_quantity_is_full_points() {
    assert!(PointQuantity::FullPoints.is_full_points());
    assert!(!PointQuantity::zero().is_full_points());
}
