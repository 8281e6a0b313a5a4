use euclid::rect::{max, min};
use euclid::{point2, size2, vec2, Fixed, Point2D, Rect, Size2D};

fn f(x: f64) -> Fixed {
    Fixed::from_raw((x * 1.0e9).round() as i64)
}

#[test]
fn test_min_max() {
    assert!(min(0, 1) == 0);
    assert!(min(f(-1.0), f(0.0)) == f(-1.0));

    assert!(max(0, 1) == 1);
    assert!(max(f(-1.0), f(0.0)) == f(0.0));
}

#[test]
fn rect_test_min_max() {
    assert!(min(0u32, 1u32) == 0u32);
    assert!(min(f(-1.0), f(0.0)) == f(-1.0));

    assert!(max(0u32, 1u32) == 1u32);
    assert!(max(f(-1.0), f(0.0)) == f(0.0));
}

#[test]
fn test_translate() {
    let p = Rect(Point2D(0, 0), Size2D(50, 40));
    let pp = p.translate(&Point2D(10, 15).to_vector());

    assert!(pp.size.width == 50);
    assert!(pp.size.height == 40);
    assert!(pp.origin.x == 10);
    assert!(pp.origin.y == 15);

    let r = Rect(Point2D(-10, -5), Size2D(50, 40));
    let rr = r.translate(&Point2D(0, -10).to_vector());

    assert!(rr.size.width == 50);
    assert!(rr.size.height == 40);
    assert!(rr.origin.x == -10);
    assert!(rr.origin.y == -15);
}

#[test]
fn rect_test_translate() {
    let p = Rect::new(Point2D::new(0u32, 0u32), Size2D::new(50u32, 40u32));
    let pp = p.translate(&vec2(10, 15));

    assert!(pp.size.width == 50);
    assert!(pp.size.height == 40);
    assert!(pp.origin.x == 10);
    assert!(pp.origin.y == 15);

    let r = Rect::new(Point2D::new(-10, -5), Size2D::new(50, 40));
    let rr = r.translate(&vec2(0, -10));

    assert!(rr.size.width == 50);
    assert!(rr.size.height == 40);
    assert!(rr.origin.x == -10);
    assert!(rr.origin.y == -15);
}

#[test]
fn test_translate_by_size() {
    let p = Rect::new(Point2D::new(0u32, 0u32), Size2D::new(50u32, 40u32));
    let pp = p.translate_by_size(&Size2D::new(10, 15));

    assert!(pp.size.width == 50);
    assert!(pp.size.height == 40);
    assert!(pp.origin.x == 10);
    assert!(pp.origin.y == 15);

    let r = Rect::new(Point2D::new(-10, -5), Size2D::new(50, 40));
    let rr = r.translate_by_size(&Size2D::new(0, -10));

    assert!(rr.size.width == 50);
    assert!(rr.size.height == 40);
    assert!(rr.origin.x == -10);
    assert!(rr.origin.y == -15);
}

#[test]
fn rect_test_union() {
    let p = Rect(Point2D(0, 0), Size2D(50, 40));
    let q = Rect(Point2D(20, 20), Size2D(5, 5));
    let r = Rect(Point2D(-15, -30), Size2D(200, 15));
    let s = Rect(Point2D(20, -15), Size2D(250, 200));

    let pq = p.union(&q);
    assert!(pq.origin == Point2D(0, 0));
    assert!(pq.size == Size2D(50, 40));

    let pr = p.union(&r);
    assert!(pr.origin == Point2D(-15, -30));
    assert!(pr.size == Size2D(200, 70));

    let ps = p.union(&s);
    assert!(ps.origin == Point2D(0, -15));
    assert!(ps.size == Size2D(270, 200));
}

#[test]
fn test_rect_union() {
    let p = Rect::new(Point2D::new(0, 0), Size2D::new(50, 40));
    let q = Rect::new(Point2D::new(20, 20), Size2D::new(5, 5));
    let r = Rect::new(Point2D::new(-15, -30), Size2D::new(200, 15));
    let s = Rect::new(Point2D::new(20, -15), Size2D::new(250, 200));

    let pq = p.union(&q);
    assert!(pq.origin == Point2D::new(0, 0));
    assert!(pq.size == Size2D::new(50, 40));

    let pr = p.union(&r);
    assert!(pr.origin == Point2D::new(-15, -30));
    assert!(pr.size == Size2D::new(200, 70));

    let ps = p.union(&s);
    assert!(ps.origin == Point2D::new(0, -15));
    assert!(ps.size == Size2D::new(270, 200));
}

#[test]
fn test_box_union() {
    let p = Rect::new(point2(0, 0), size2(50, 40)).to_box();
    let q = Rect::new(point2(20, 20), size2(5, 5)).to_box();
    let r = Rect::new(point2(-15, -30), size2(200, 15)).to_box();
    let s = Rect::new(point2(20, -15), size2(250, 200)).to_box();

    let pq = p.union(&q);
    assert!(pq.min == point2(0, 0));
    assert!(pq.size() == size2(50, 40));

    let pr = p.union(&r);
    assert!(pr.min == point2(-15, -30));
    assert!(pr.size() == size2(200, 70));

    let ps = p.union(&s);
    assert!(ps.min == point2(0, -15));
    assert!(ps.size() == size2(270, 200));
}

#[test]
fn rect_test_intersection() {
    let p = Rect(Point2D(0, 0), Size2D(10, 20));
    let q = Rect(Point2D(5, 15), Size2D(10, 10));
    let r = Rect(Point2D(-5, -5), Size2D(8, 8));

    let pq = p.intersection(&q);
    assert!(pq.is_some());
    let pq = pq.unwrap();
    assert!(pq.origin == Point2D(5, 15));
    assert!(pq.size == Size2D(5, 5));

    let pr = p.intersection(&r);
    assert!(pr.is_some());
    let pr = pr.unwrap();
    assert!(pr.origin == Point2D(0, 0));
    assert!(pr.size == Size2D(3, 3));

    let qr = q.intersection(&r);
    assert!(qr.is_none());
}

#[test]
fn test_rect_intersection() {
    let p = Rect::new(Point2D::new(0, 0), Size2D::new(10, 20));
    let q = Rect::new(Point2D::new(5, 15), Size2D::new(10, 10));
    let r = Rect::new(Point2D::new(-5, -5), Size2D::new(8, 8));

    let pq = p.intersection(&q);
    assert!(pq.is_some());
    let pq = pq.unwrap();
    assert!(pq.origin == Point2D::new(5, 15));
    assert!(pq.size == Size2D::new(5, 5));

    let pr = p.intersection(&r);
    assert!(pr.is_some());
    let pr = pr.unwrap();
    assert!(pr.origin == Point2D::new(0, 0));
    assert!(pr.size == Size2D::new(3, 3));

    let qr = q.intersection(&r);
    assert!(qr.is_none());
}

#[test]
fn test_box_intersection() {
    let p = Rect::new(point2(0, 0), size2(10, 20)).to_box();
    let q = Rect::new(point2(5, 15), size2(10, 10)).to_box();
    let r = Rect::new(point2(-5, -5), size2(8, 8)).to_box();

    let pq = p.intersection(&q).unwrap();
    assert!(!pq.is_empty_or_negative());
    assert!(pq.min == point2(5, 15));
    assert!(pq.size() == size2(5, 5));

    let pr = p.intersection(&r).unwrap();
    assert!(!pr.is_empty_or_negative());
    assert!(pr.min == point2(0, 0));
    assert!(pr.size() == size2(3, 3));

    // Boxes apart have no intersection: what lies between their corners
    // is empty or negative.
    assert!(q.intersection(&r).is_none());
    let qr = q.intersection_unchecked(&r);
    assert!(qr.is_empty_or_negative());
}

#[test]
fn rect_test_contains() {
    let r = Rect::new(Point2D::new(-20, 15), Size2D::new(100, 200));

    assert!(r.contains(&Point2D::new(0, 50)));
    assert!(r.contains(&Point2D::new(-10, 200)));

    // The `contains` method is inclusive of the top/left edges, but not the
    // bottom/right edges.
    assert!(r.contains(&Point2D::new(-20, 15)));
    assert!(!r.contains(&Point2D::new(80, 15)));
    assert!(!r.contains(&Point2D::new(80, 215)));
    assert!(!r.contains(&Point2D::new(-20, 215)));

    // Points beyond the top-left corner.
    assert!(!r.contains(&Point2D::new(-25, 15)));
    assert!(!r.contains(&Point2D::new(-15, 10)));

    // Points beyond the top-right corner.
    assert!(!r.contains(&Point2D::new(85, 20)));
    assert!(!r.contains(&Point2D::new(75, 10)));

    // Points beyond the bottom-right corner.
    assert!(!r.contains(&Point2D::new(85, 210)));
    assert!(!r.contains(&Point2D::new(75, 220)));

    // Points beyond the bottom-left corner.
    assert!(!r.contains(&Point2D::new(-25, 210)));
    assert!(!r.contains(&Point2D::new(-15, 220)));

    let r = Rect::new(Point2D::new(f(-20.0), f(15.0)), Size2D::new(f(100.0), f(200.0)));
    assert!(r.contains_rect(&r));
    assert!(!r.contains_rect(&r.translate(&vec2(f(0.1), f(0.0)))));
    assert!(!r.contains_rect(&r.translate(&vec2(f(-0.1), f(0.0)))));
    assert!(!r.contains_rect(&r.translate(&vec2(f(0.0), f(0.1)))));
    assert!(!r.contains_rect(&r.translate(&vec2(f(0.0), f(-0.1)))));
    // Empty rectangles are always considered as contained in other rectangles,
    // even if their origin is not.
    let p = Point2D::new(f(1.0), f(1.0));
    assert!(!r.contains(&p));
    assert!(r.contains_rect(&Rect::new(p, Size2D::zero())));
}

#[test]
fn rect_test_scale() {
    let p = Rect::new(Point2D::new(0u32, 0u32), Size2D::new(50u32, 40u32));
    let pp = p.scale(10, 15);

    assert!(pp.size.width == 500);
    assert!(pp.size.height == 600);
    assert!(pp.origin.x == 0);
    assert!(pp.origin.y == 0);

    let r = Rect::new(Point2D::new(-10, -5), Size2D::new(50, 40));
    let rr = r.scale(1, 20);

    assert!(rr.size.width == 50);
    assert!(rr.size.height == 800);
    assert!(rr.origin.x == -10);
    assert!(rr.origin.y == -100);
}

#[test]
fn rect_test_inflate() {
    let p = Rect::new(Point2D::new(0, 0), Size2D::new(10, 10));
    let pp = p.inflate(10, 20);

    assert!(pp.size.width == 30);
    assert!(pp.size.height == 50);
    assert!(pp.origin.x == -10);
    assert!(pp.origin.y == -20);

    let r = Rect::new(Point2D::new(0, 0), Size2D::new(10, 20));
    let rr = r.inflate(-2, -5);

    assert!(rr.size.width == 6);
    assert!(rr.size.height == 10);
    assert!(rr.origin.x == 2);
    assert!(rr.origin.y == 5);
}

#[test]
fn test_min_max_x_y() {
    let p = Rect::new(Point2D::new(0u32, 0u32), Size2D::new(50u32, 40u32));
    assert!(p.max_y() == 40);
    assert!(p.min_y() == 0);
    assert!(p.max_x() == 50);
    assert!(p.min_x() == 0);

    let r = Rect::new(Point2D::new(-10, -5), Size2D::new(50, 40));
    assert!(r.max_y() == 35);
    assert!(r.min_y() == -5);
    assert!(r.max_x() == 40);
    assert!(r.min_x() == -10);
}

#[test]
fn rect_test_is_empty() {
    assert!(Rect::new(Point2D::new(0u32, 0u32), Size2D::new(0u32, 0u32)).is_empty());
    assert!(Rect::new(Point2D::new(0u32, 0u32), Size2D::new(10u32, 0u32)).is_empty());
    assert!(Rect::new(Point2D::new(0u32, 0u32), Size2D::new(0u32, 10u32)).is_empty());
    assert!(!Rect::new(Point2D::new(0u32, 0u32), Size2D::new(1u32, 1u32)).is_empty());
    assert!(Rect::new(Point2D::new(10u32, 10u32), Size2D::new(0u32, 0u32)).is_empty());
    assert!(Rect::new(Point2D::new(10u32, 10u32), Size2D::new(10u32, 0u32)).is_empty());
    assert!(Rect::new(Point2D::new(10u32, 10u32), Size2D::new(0u32, 10u32)).is_empty());
    assert!(!Rect::new(Point2D::new(10u32, 10u32), Size2D::new(1u32, 1u32)).is_empty());
}

#[test]
fn rect_test_round() {
    let mut x = -2.0;
    let mut y = -2.0;
    let mut w = -2.0;
    let mut h = -2.0;
    while x < 2.0 {
        while y < 2.0 {
            while w < 2.0 {
                while h < 2.0 {
                    let rect = Rect::new(Point2D::new(f(x), f(y)), Size2D::new(f(w), f(h)));

                    assert!(rect.contains_rect(&rect.round_in()));
                    assert!(rect.round_in().inflate(f(1.0), f(1.0)).contains_rect(&rect));

                    assert!(rect.round_out().contains_rect(&rect));
                    assert!(rect.inflate(f(1.0), f(1.0)).contains_rect(&rect.round_out()));

                    assert!(rect.inflate(f(1.0), f(1.0)).contains_rect(&rect.round()));
                    assert!(rect.round().inflate(f(1.0), f(1.0)).contains_rect(&rect));

                    h += 0.1;
                }
                w += 0.1;
            }
            y += 0.1;
        }
        x += 0.1
    }
}
