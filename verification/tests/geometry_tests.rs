//! Geometry: normalization, corners, hit-testing, resize arithmetic.

use peashot::geometry::Corner;
use peashot::geometry::Corners;
use peashot::geometry::Point;
use peashot::geometry::Rectangle;
use peashot::geometry::Side;
use peashot::geometry::SideOrCorner;
use peashot::geometry::PointerShape;
use peashot::geometry::Size;
use peashot::geometry::Vector;

fn rect(x: i64, y: i64, width: i64, height: i64) -> Rectangle {
    Rectangle { x, y, width, height }
}

#[test]
fn test_size_ext_square() {
    let size = Size::square(10);
    assert_eq!(size.width, 10);
    assert_eq!(size.height, 10);
}

#[test]
fn test_vector_ext_x() {
    let vec = Vector::x(5);
    assert_eq!(vec.x, 5);
    assert_eq!(vec.y, 0);
}

#[test]
fn test_vector_ext_y() {
    let vec = Vector::y(7);
    assert_eq!(vec.x, 0);
    assert_eq!(vec.y, 7);
}

#[test]
fn test_vector_ext_diag() {
    let vec = Vector::diag(3);
    assert_eq!(vec.x, 3);
    assert_eq!(vec.y, 3);
}

#[test]
fn test_corner_resize_rect() {
    let initial_rect = rect(10, 20, 100, 80);
    let dx = 5;
    let dy = -5;

    let resized_top_left = Corner::TopLeft.resize_rect(initial_rect, dy, dx);
    assert_eq!(resized_top_left, rect(10 + dx, 20 + dy, 100 - dx, 80 - dy));

    let resized_top_right = Corner::TopRight.resize_rect(initial_rect, dy, dx);
    assert_eq!(resized_top_right, rect(10, 20 + dy, 100 + dx, 80 - dy));

    let resized_bottom_left = Corner::BottomLeft.resize_rect(initial_rect, dy, dx);
    assert_eq!(resized_bottom_left, rect(10 + dx, 20, 100 - dx, 80 + dy));

    let resized_bottom_right = Corner::BottomRight.resize_rect(initial_rect, dy, dx);
    assert_eq!(resized_bottom_right, rect(10, 20, 100 + dx, 80 + dy));
}

#[test]
fn test_corners_nearest_corner() {
    let corners = Corners {
        top_left: Point::new(0, 0),
        top_right: Point::new(100, 0),
        bottom_left: Point::new(0, 50),
        bottom_right: Point::new(100, 50),
    };

    assert_eq!(
        corners.nearest_corner(Point::new(10, 5)),
        (Point::new(0, 0), Corner::TopLeft)
    );
    assert_eq!(
        corners.nearest_corner(Point::new(90, 5)),
        (Point::new(100, 0), Corner::TopRight)
    );
    assert_eq!(
        corners.nearest_corner(Point::new(10, 45)),
        (Point::new(0, 50), Corner::BottomLeft)
    );
    assert_eq!(
        corners.nearest_corner(Point::new(90, 45)),
        (Point::new(100, 50), Corner::BottomRight)
    );
    // equidistant from all four corners: the first listed corner wins
    assert_eq!(
        corners.nearest_corner(Point::new(50, 25)),
        (Point::new(0, 0), Corner::TopLeft)
    );
}

#[test]
fn test_corners_side_at() {
    let half_interaction: i64 = peashot::geometry::HALF_INTERACTION;

    let corners = Rectangle::new(Point::new(100, 100), Size::new(200, 150)).corners();

    assert_eq!(
        corners.side_at(Point::new(100, 100)),
        Some(SideOrCorner::Corner(Corner::TopLeft))
    );
    assert_eq!(
        corners.side_at(Point::new(100 - half_interaction + 1, 100 - half_interaction + 1)),
        Some(SideOrCorner::Corner(Corner::TopLeft))
    );
    assert_eq!(
        corners.side_at(Point::new(300, 100)),
        Some(SideOrCorner::Corner(Corner::TopRight))
    );
    assert_eq!(
        corners.side_at(Point::new(100, 250)),
        Some(SideOrCorner::Corner(Corner::BottomLeft))
    );
    assert_eq!(
        corners.side_at(Point::new(300, 250)),
        Some(SideOrCorner::Corner(Corner::BottomRight))
    );

    assert_eq!(
        corners.side_at(Point::new(200, 100)),
        Some(SideOrCorner::Side(Side::Top))
    );
    assert_eq!(
        corners.side_at(Point::new(200, 100 - half_interaction + 1)),
        Some(SideOrCorner::Side(Side::Top))
    );
    assert_eq!(
        corners.side_at(Point::new(200, 100 + half_interaction - 1)),
        Some(SideOrCorner::Side(Side::Top))
    );

    assert_eq!(
        corners.side_at(Point::new(200, 250)),
        Some(SideOrCorner::Side(Side::Bottom))
    );
    assert_eq!(
        corners.side_at(Point::new(200, 250 - half_interaction + 1)),
        Some(SideOrCorner::Side(Side::Bottom))
    );

    assert_eq!(
        corners.side_at(Point::new(100, 150)),
        Some(SideOrCorner::Side(Side::Left))
    );
    assert_eq!(
        corners.side_at(Point::new(100 - half_interaction + 1, 150)),
        Some(SideOrCorner::Side(Side::Left))
    );

    assert_eq!(
        corners.side_at(Point::new(300, 150)),
        Some(SideOrCorner::Side(Side::Right))
    );
    assert_eq!(
        corners.side_at(Point::new(300 + half_interaction - 1, 150)),
        Some(SideOrCorner::Side(Side::Right))
    );

    // points outside any interaction area
    assert_eq!(corners.side_at(Point::new(0, 0)), None);
    assert_eq!(
        corners.side_at(Point::new(200, 100 + half_interaction + 1)),
        None
    );
    // just below the top interaction strip
    assert_eq!(corners.side_at(Point::new(200, 200)), None);

    // a point within the top-left corner zone, the top strip and the
    // left strip at once: the corner wins
    let point_in_top_left_corner_interaction =
        Point::new(100 - half_interaction / 2, 100 - half_interaction / 2);
    assert_eq!(
        corners.side_at(point_in_top_left_corner_interaction),
        Some(SideOrCorner::Corner(Corner::TopLeft))
    );
}

#[test]
fn test_rectangle_ext_center_x_for() {
    let r = rect(10, 0, 100, 0);
    let size_to_center = Size::new(20, 0);
    assert_eq!(r.center_x_for(size_to_center), 50);
}

#[test]
fn test_rectangle_ext_center_y_for() {
    let r = rect(0, 10, 0, 100);
    let size_to_center = Size::new(0, 20);
    assert_eq!(r.center_y_for(size_to_center), 50);
}

#[test]
fn test_rectangle_ext_center_for() {
    let r = rect(10, 20, 100, 80);
    let size_to_center = Size::new(20, 10);
    let center_point = r.center_for(size_to_center);
    assert_eq!(center_point, Point::new(50, 55));
}

#[test]
fn test_rectangle_ext_norm() {
    let r1 = rect(0, 0, 10, 10);
    assert_eq!(r1.norm(), r1);

    let r2 = rect(10, 10, -10, -10);
    assert_eq!(r2.norm(), rect(0, 0, 10, 10));

    let r3 = rect(0, 10, 10, -10);
    assert_eq!(r3.norm(), rect(0, 0, 10, 10));

    let r4 = rect(10, 0, -10, 10);
    assert_eq!(r4.norm(), rect(0, 0, 10, 10));
}

#[test]
fn test_rectangle_ext_corners() {
    let corners = rect(10, 20, 30, 40).corners();
    assert_eq!(corners.top_left, Point::new(10, 20));
    assert_eq!(corners.top_right, Point::new(40, 20));
    assert_eq!(corners.bottom_left, Point::new(10, 60));
    assert_eq!(corners.bottom_right, Point::new(40, 60));

    let corners_neg = rect(40, 60, -30, -40).corners();
    assert_eq!(corners_neg.top_left, Point::new(10, 20));
    assert_eq!(corners_neg.top_right, Point::new(40, 20));
    assert_eq!(corners_neg.bottom_left, Point::new(10, 60));
    assert_eq!(corners_neg.bottom_right, Point::new(40, 60));
}

#[test]
fn test_rectangle_ext_corner_accessors() {
    let r = rect(10, 20, 100, 80);
    assert_eq!(r.top_left(), Point::new(10, 20));
    assert_eq!(r.top_right(), Point::new(110, 20));
    assert_eq!(r.bottom_left(), Point::new(10, 100));
    assert_eq!(r.bottom_right(), Point::new(110, 100));
}

#[test]
fn test_rectangle_contained_in() {
    assert_eq!(
        rect(-50, 200, 100, 150).clipped_in_bounds_of(rect(0, 0, 800, 600)),
        rect(0, 200, 50, 150)
    );
}

#[test]
fn norm_is_idempotent_on_samples() {
    let samples = [
        rect(5, 7, -3, 9),
        rect(-4, -6, -1, -1),
        rect(0, 0, 0, 0),
        rect(100, 50, 20, -70),
    ];
    for r in samples {
        let once = r.norm();
        assert_eq!(once.norm(), once);
        assert!(once.width >= 0);
        assert!(once.height >= 0);
    }
}

#[test]
fn clip_keeps_inner_rectangle_unchanged() {
    let b = rect(0, 0, 800, 600);
    let r = rect(50, 200, 100, 150);
    assert_eq!(r.clipped_in_bounds_of(b), r);
    // and the clipped form of any rectangle lies within the bounds
    let wild = rect(1000, -300, 400, 4000);
    let clipped = wild.clipped_in_bounds_of(b);
    assert!(clipped.x >= 0 && clipped.y >= 0);
    assert!(clipped.x + clipped.width <= 800);
    assert!(clipped.y + clipped.height <= 600);
    assert!(clipped.width >= 0 && clipped.height >= 0);
}

#[test]
fn point_helpers() {
    assert_eq!(Point::new(3, 4).into_vector(), Vector { x: 3, y: 4 });
    assert_eq!(Point::new(3, 4).with_x(9), Point::new(9, 4));
    assert_eq!(Point::new(3, 4).with_y(9), Point::new(3, 9));
    assert_eq!(Point::new(0, 0).mid(Point::new(10, 21)), Point::new(5, 10));
}

#[test]
fn side_default_keys() {
    assert_eq!(Side::Top.default_keys(), ("k", "\u{1F871}"));
    assert_eq!(Side::Right.default_keys(), ("l", "\u{1F872}"));
    assert_eq!(Side::Bottom.default_keys(), ("j", "\u{1F873}"));
    assert_eq!(Side::Left.default_keys(), ("h", "\u{1F870}"));
}

#[test]
fn mouse_icons_match_feature_orientation() {
    assert_eq!(
        SideOrCorner::Side(Side::Top).mouse_icon(),
        PointerShape::ResizingVertically
    );
    assert_eq!(
        SideOrCorner::Side(Side::Left).mouse_icon(),
        PointerShape::ResizingHorizontally
    );
    assert_eq!(
        SideOrCorner::Corner(Corner::TopLeft).mouse_icon(),
        PointerShape::ResizingDiagonallyDown
    );
    assert_eq!(
        SideOrCorner::Corner(Corner::BottomLeft).mouse_icon(),
        PointerShape::ResizingDiagonallyUp
    );
}

#[test]
fn side_or_corner_from_name() {
    assert_eq!(
        SideOrCorner::from_name("top"),
        Ok(SideOrCorner::Side(Side::Top))
    );
    assert_eq!(
        SideOrCorner::from_name("bottom-right"),
        Ok(SideOrCorner::Corner(Corner::BottomRight))
    );
    assert_eq!(
        SideOrCorner::from_name("middle"),
        Err(
            "expected one of top, right, bottom, left, top-left, top-right, bottom-left, \
             bottom-right"
                .to_string()
        )
    );
    assert_eq!(
        SideOrCorner::variants(),
        "top, right, bottom, left, top-left, top-right, bottom-left, bottom-right"
    );
}
