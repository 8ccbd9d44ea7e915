//! The region micro-language: parsing, resolution and the textual
//! round trip.

use peashot::geometry::Rectangle;
use peashot::lazy_rect::LazyRectangle;
use peashot::lazy_rect::ParseRectError;

fn rect(x: i64, y: i64, width: i64, height: i64) -> Rectangle {
    Rectangle { x, y, width, height }
}

fn bounds(width: i64, height: i64) -> Rectangle {
    Rectangle { x: 0, y: 0, width, height }
}

#[test]
fn basic_absolute() {
    assert_eq!(
        LazyRectangle::from_str("100x200+10+20")
            .unwrap()
            .init(bounds(1920, 1080)),
        rect(10, 20, 100, 200)
    );
}

#[test]
fn clamp_exceeding_bounds() {
    assert_eq!(
        LazyRectangle::from_str("500x500+0+0")
            .unwrap()
            .init(bounds(300, 200)),
        rect(0, 0, 300, 200)
    );
}

#[test]
fn full_keyword() {
    let b = bounds(1234, 567);
    assert_eq!(LazyRectangle::from_str("full").unwrap().init(b), b);
}

#[test]
fn invalid_format() {
    assert_eq!(
        LazyRectangle::from_str("abc").unwrap_err(),
        ParseRectError::InvalidFormat
    );
}

#[test]
fn zero_size() {
    assert_eq!(
        LazyRectangle::from_str("0x0+10+10")
            .unwrap()
            .init(bounds(500, 500)),
        rect(10, 10, 0, 0)
    );
}

#[test]
fn percent_position_and_size() {
    assert_eq!(
        LazyRectangle::from_str("0.5x0.5+0.25+0.25")
            .unwrap()
            .init(bounds(1000, 800)),
        rect(250, 200, 500, 400)
    );
}

#[test]
fn nudged_negative_centered() {
    assert_eq!(
        LazyRectangle::from_str("100x150+0.5+0.5-50%-50%")
            .unwrap()
            .init(bounds(800, 600)),
        rect(400 - 50, 300 - 75, 100, 150)
    );
}

#[test]
fn nudge_pushes_to_edge() {
    assert_eq!(
        LazyRectangle::from_str("100x100+1+1-100%-100%")
            .unwrap()
            .init(bounds(400, 400)),
        rect(0, 0, 1, 1)
    );
}

#[test]
fn min_max_clamping_with_nudge() {
    assert_eq!(
        LazyRectangle::from_str("20x20+1+1+100%+100%")
            .unwrap()
            .init(bounds(100, 100)),
        rect(21, 21, 20, 20)
    );
}

#[test]
fn invalid_format_missing_components() {
    LazyRectangle::from_str("100x200+10").unwrap_err();
    LazyRectangle::from_str("100x200").unwrap_err();
    LazyRectangle::from_str("100x+10+10").unwrap_err();
    LazyRectangle::from_str("x200+10+10").unwrap_err();
    LazyRectangle::from_str("100x200+10+20+invalid").unwrap_err();
    LazyRectangle::from_str("abcx100+10+10").unwrap_err();
    LazyRectangle::from_str("100x...!+10+10").unwrap_err();
    LazyRectangle::from_str("100x100+X+10").unwrap_err();
    LazyRectangle::from_str("100x100+10+Y").unwrap_err();
    LazyRectangle::from_str("100x100+0+0-12.5%").unwrap_err();
    LazyRectangle::from_str("100x100+0+0-0.5%").unwrap_err();
    LazyRectangle::from_str("100x100+0+0-abc%").unwrap_err();
    LazyRectangle::from_str("100x100+0+0-50%%").unwrap_err();
    LazyRectangle::from_str("100x100+0+0-10%+20%-30%").unwrap_err();
    LazyRectangle::from_str("100x100+50+50-50+50").unwrap_err();
}

#[test]
fn nudge_zero_percent() {
    assert_eq!(
        LazyRectangle::from_str("100x150+10+20-0%+0%")
            .unwrap()
            .init(bounds(800, 600)),
        rect(10, 20, 100, 150)
    );
}

#[test]
fn nudge_100_percent() {
    assert_eq!(
        LazyRectangle::from_str("100x150+50+50-100%+100%")
            .unwrap()
            .init(bounds(800, 600)),
        rect(0, 200, 50, 150)
    );
}

#[test]
fn single_x_nudge_positive() {
    assert_eq!(
        LazyRectangle::from_str("100x100+10+20+50%")
            .unwrap()
            .init(bounds(800, 600)),
        rect(10 + 50, 20, 100, 100)
    );
}

#[test]
fn single_x_nudge_negative() {
    assert_eq!(
        LazyRectangle::from_str("100x100+50+20-30%")
            .unwrap()
            .init(bounds(800, 600)),
        rect(50 - 30, 20, 100, 100)
    );
}

#[test]
fn y_coord_is_relative_with_nudges() {
    assert_eq!(
        LazyRectangle::from_str("100x150+10+0.5-10%+20%")
            .unwrap()
            .init(bounds(800, 600)),
        rect(10 - 10, 300 + 30, 100, 150)
    );
}

#[test]
fn init_with_zero_bounds_relative_rect() {
    assert_eq!(
        LazyRectangle::from_str("0.5x0.5+0.1+0.1")
            .unwrap()
            .init(bounds(0, 0)),
        rect(0, 0, 0, 0)
    );
}

#[test]
fn init_with_zero_bounds_and_nudges() {
    assert_eq!(
        LazyRectangle::from_str("10x20+0.1+0.1-10%+10%")
            .unwrap()
            .init(bounds(0, 0)),
        rect(0, 0, 0, 0)
    );
}

#[test]
fn init_nudge_with_zero_width_height_rect_on_non_zero_bounds() {
    assert_eq!(
        LazyRectangle::from_str("0x0+10+10-50%-50%")
            .unwrap()
            .init(bounds(100, 100)),
        rect(10, 10, 0, 0)
    );
}

#[test]
fn completely_out_of_bounds_rect_is_clamped() {
    assert_eq!(
        LazyRectangle::from_str("10x10+1000+1000")
            .unwrap()
            .init(bounds(100, 100)),
        rect(100, 100, 0, 0)
    );
}

#[test]
fn error_variants_are_distinguished() {
    assert_eq!(
        LazyRectangle::from_str("100x100+50+50-50+50").unwrap_err(),
        ParseRectError::MissingPercentage
    );
    assert_eq!(
        LazyRectangle::from_str("100x100+0+0-10%+20%-30%").unwrap_err(),
        ParseRectError::InvalidFormat
    );
    assert!(matches!(
        LazyRectangle::from_str("100x100+0+0-abc%").unwrap_err(),
        ParseRectError::PercentageParseError(_)
    ));
    assert!(matches!(
        LazyRectangle::from_str("100x100+X+10").unwrap_err(),
        ParseRectError::ParseLengthError(_)
    ));
    // a nudge suffix must begin with a sign
    assert_eq!(
        LazyRectangle::from_str("100x100+0+0a50%").unwrap_err(),
        ParseRectError::InvalidSign('a')
    );
}

#[test]
fn rect_as_str_formats_region() {
    assert_eq!(rect(10, 20, 100, 200).as_str(), "100x200+10+20");
    assert_eq!(rect(0, 0, 0, 0).as_str(), "0x0+0+0");
    // negative values are limited to zero in the textual form
    assert_eq!(rect(-5, 3, 7, 9).as_str(), "7x9+0+3");
}

#[test]
fn region_string_round_trips() {
    let b = bounds(1920, 1080);
    for s in ["100x200+10+20", "0x0+0+0", "1920x1080+0+0", "1x1+1919+1079"] {
        assert_eq!(
            LazyRectangle::from_str(s).unwrap().init(b).as_str(),
            s
        );
    }
}

#[test]
fn plus_prefixed_integer_token_is_absolute() {
    // the integer interpretation admits one leading plus sign, so the
    // width here is nine pixels, not nine times the container width
    assert_eq!(
        LazyRectangle::from_str("+9x5+0+0")
            .unwrap()
            .init(bounds(100, 100)),
        rect(0, 0, 9, 5)
    );
    // a doubled sign is no integer and no decimal either
    LazyRectangle::from_str("++9x5+0+0").unwrap_err();
}
