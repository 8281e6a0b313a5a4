use euclid::{Fixed, Length, ScaleFactor};

fn f(x: f64) -> Fixed {
    Fixed::from_raw((x * 1.0e9).round() as i64)
}

#[derive(Debug, Copy, Clone)]
enum Inch {}
#[derive(Debug, Copy, Clone)]
enum Mm {}
#[derive(Debug, Copy, Clone)]
enum Cm {}

#[test]
fn length_test_length() {
    let mm_per_inch: ScaleFactor<Inch, Mm, Fixed> = ScaleFactor::new(f(25.4));

    let one_foot: Length<Inch, Fixed> = Length::new(f(12.0));
    let two_feet = one_foot.clone() + one_foot.clone();
    let zero_feet = one_foot.clone() - one_foot.clone();

    assert_eq!(one_foot.get(), f(12.0));
    assert_eq!(two_feet.get(), f(24.0));
    assert_eq!(zero_feet.get(), f(0.0));

    assert!(one_foot == one_foot);
    assert!(two_feet != one_foot);

    assert!(zero_feet < one_foot);
    assert!(zero_feet <= one_foot);
    assert!(two_feet > one_foot);
    assert!(two_feet >= one_foot);

    assert!(two_feet <= two_feet);
    assert!(two_feet >= two_feet);
    assert!(!(two_feet > two_feet));
    assert!(!(two_feet < two_feet));

    let one_foot_in_mm: Length<Mm, Fixed> = one_foot * mm_per_inch;

    assert_eq!(one_foot_in_mm, Length::new(f(304.8)));
    assert_eq!(one_foot_in_mm / one_foot, mm_per_inch);

    let back_to_inches: Length<Inch, Fixed> = one_foot_in_mm / mm_per_inch;
    assert_eq!(one_foot, back_to_inches);

    let int_foot: Length<Inch, isize> = one_foot.cast().unwrap();
    assert_eq!(int_foot.get(), 12);

    let negative_one_foot = -one_foot;
    assert_eq!(negative_one_foot.get(), f(-12.0));

    let negative_two_feet = -two_feet;
    assert_eq!(negative_two_feet.get(), f(-24.0));

    let zero_feet: Length<Inch, Fixed> = Length::new(f(0.0));
    let negative_zero_feet = -zero_feet;
    assert_eq!(negative_zero_feet.get(), f(0.0));
}

#[test]
fn test_length() {
    let mm_per_inch: ScaleFactor<Inch, Mm, Fixed> = ScaleFactor(f(25.4), core::marker::PhantomData);

    let one_foot: Length<Inch, Fixed> = Length(f(12.0), core::marker::PhantomData);
    let two_feet = one_foot + one_foot;
    let zero_feet = one_foot - one_foot;

    assert_eq!(one_foot.get(), f(12.0));
    assert_eq!(two_feet.get(), f(24.0));
    assert!(zero_feet.get() == f(0.0));

    assert!(one_foot == one_foot);
    assert!(two_feet != one_foot);

    assert!(zero_feet < one_foot);
    assert!(zero_feet <= one_foot);
    assert!(two_feet > one_foot);
    assert!(two_feet >= one_foot);

    assert!(two_feet <= two_feet);
    assert!(two_feet >= two_feet);
    assert!(!(two_feet > two_feet));
    assert!(!(two_feet < two_feet));

    let one_foot_in_mm: Length<Mm, Fixed> = one_foot * mm_per_inch;

    assert_eq!(one_foot_in_mm, Length::new(f(304.8)));

    let back_to_inches: Length<Inch, Fixed> = one_foot_in_mm / mm_per_inch;
    assert_eq!(one_foot, back_to_inches);

    let int_foot: Length<Inch, isize> = one_foot.cast().unwrap();
    assert_eq!(int_foot.get(), 12);
}

#[test]
fn test_addassign() {
    let one_cm: Length<Mm, Fixed> = Length::new(f(10.0));
    let mut measurement: Length<Mm, Fixed> = Length::new(f(5.0));

    measurement += one_cm;

    assert_eq!(measurement.get(), f(15.0));
}

#[test]
fn test_subassign() {
    let one_cm: Length<Mm, Fixed> = Length::new(f(10.0));
    let mut measurement: Length<Mm, Fixed> = Length::new(f(5.0));

    measurement -= one_cm;

    assert_eq!(measurement.get(), f(-5.0));
}

#[test]
fn test_scale_factor() {
    let mm_per_inch: ScaleFactor<Inch, Mm, Fixed> = ScaleFactor::new(f(25.4));
    let cm_per_mm: ScaleFactor<Mm, Cm, Fixed> = ScaleFactor::new(f(0.1));

    let mm_per_cm: ScaleFactor<Cm, Mm, Fixed> = cm_per_mm.inv();
    assert_eq!(mm_per_cm.get(), f(10.0));

    let cm_per_inch: ScaleFactor<Inch, Cm, Fixed> = mm_per_inch * cm_per_mm;
    assert_eq!(cm_per_inch, ScaleFactor::new(f(2.54)));

    let a: ScaleFactor<Inch, Inch, isize> = ScaleFactor::new(2);
    let b: ScaleFactor<Inch, Inch, isize> = ScaleFactor::new(3);
    assert!(a != b);
    assert_eq!(a, a.clone());
    assert_eq!(a.clone() + b.clone(), ScaleFactor::new(5));
    assert_eq!(a - b, ScaleFactor::new(-1));
}
