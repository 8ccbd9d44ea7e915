//! Rectangle geometry: normalization, corners, hit-testing and
//! corner-relative resize arithmetic.
//!
//! Coordinates are pixels as `i64`. A value is *in range* when its
//! magnitude is at most [`MAX_COORD`]; the executable functions here
//! accept anything whose magnitude is at most `8 * MAX_COORD` (the
//! *loose* range), so results of one operation can safely feed the next,
//! and every sum they form is proved to fit in `i64`.

use vstd::prelude::*;

verus! {

/// Largest coordinate magnitude the library keeps in its own state.
pub const MAX_COORD: i64 = 0x4000_0000;

/// Magnitude bound under which the executable geometry accepts a value.
pub const LOOSE_COORD: i64 = 0x2_0000_0000;

/// The value is within the range the library keeps its own state in.
pub open spec fn in_range(v: int) -> bool {
    -(MAX_COORD as int) <= v <= MAX_COORD as int
}

/// The value is small enough for the geometry operations to accept.
pub open spec fn loose(v: int) -> bool {
    -(LOOSE_COORD as int) <= v <= LOOSE_COORD as int
}

/// A still wider bound, met by any sum of a few loose values; wide
/// values can be compared and added once more without overflow.
pub open spec fn wide(v: int) -> bool {
    -0x100_0000_0000 <= v <= 0x100_0000_0000
}

/// The bound met by sums of two wide values.
pub open spec fn wider(v: int) -> bool {
    -0x200_0000_0000 <= v <= 0x200_0000_0000
}

/// A point on the screen, in pixels.
#[derive(Clone, Copy, Debug, PartialEq, Eq, Structural)]
pub struct Point {
    /// Horizontal coordinate, growing rightwards.
    pub x: i64,
    /// Vertical coordinate, growing downwards.
    pub y: i64,
}

/// A displacement between two points, in pixels.
#[derive(Clone, Copy, Debug, PartialEq, Eq, Structural)]
pub struct Vector {
    /// Horizontal component.
    pub x: i64,
    /// Vertical component.
    pub y: i64,
}

/// Extents of a rectangle, in pixels.
#[derive(Clone, Copy, Debug, PartialEq, Eq, Structural)]
pub struct Size {
    /// Horizontal extent.
    pub width: i64,
    /// Vertical extent.
    pub height: i64,
}

/// A rectangle: top-left corner plus extents.
///
/// Width and height may be negative while a drag is in progress;
/// [`Rectangle::norm`] relocates the origin so both become non-negative.
#[derive(Clone, Copy, Debug, PartialEq, Eq, Structural)]
pub struct Rectangle {
    /// Horizontal coordinate of the origin corner.
    pub x: i64,
    /// Vertical coordinate of the origin corner.
    pub y: i64,
    /// Horizontal extent; may be negative transiently.
    pub width: i64,
    /// Vertical extent; may be negative transiently.
    pub height: i64,
}

impl Point {
    /// Both coordinates are in the library's range.
    pub open spec fn wf(self) -> bool {
        in_range(self.x as int) && in_range(self.y as int)
    }

    /// Both coordinates are accepted by the geometry operations.
    pub open spec fn loose_wf(self) -> bool {
        loose(self.x as int) && loose(self.y as int)
    }

    /// Both coordinates are within the wide bound.
    pub open spec fn wide_wf(self) -> bool {
        wide(self.x as int) && wide(self.y as int)
    }

    /// Make a point from its coordinates.
    pub fn new(x: i64, y: i64) -> (r: Point)
        ensures
            r == (Point { x, y }),
    {
        Point { x, y }
    }
}

impl Size {
    /// Both extents are in the library's range.
    pub open spec fn wf(self) -> bool {
        in_range(self.width as int) && in_range(self.height as int)
    }

    /// Make a size from its extents.
    pub fn new(width: i64, height: i64) -> (r: Size)
        ensures
            r == (Size { width, height }),
    {
        Size { width, height }
    }

    /// A size whose width and height are equal.
    pub fn square(size: i64) -> (r: Size)
        ensures
            r.width == size,
            r.height == size,
    {
        Size { width: size, height: size }
    }
}

impl Vector {
    /// A vector with only a horizontal component.
    pub fn x(x: i64) -> (r: Vector)
        ensures
            r.x == x,
            r.y == 0,
    {
        Vector { x, y: 0 }
    }

    /// A vector with only a vertical component.
    pub fn y(y: i64) -> (r: Vector)
        ensures
            r.x == 0,
            r.y == y,
    {
        Vector { x: 0, y }
    }

    /// A diagonal vector whose components are equal.
    pub fn diag(x_and_y: i64) -> (r: Vector)
        ensures
            r.x == x_and_y,
            r.y == x_and_y,
    {
        Vector { x: x_and_y, y: x_and_y }
    }
}

/// Mathematical model of a rectangle: unbounded integers.
pub ghost struct RectV {
    /// Horizontal coordinate of the origin corner.
    pub x: int,
    /// Vertical coordinate of the origin corner.
    pub y: int,
    /// Horizontal extent.
    pub w: int,
    /// Vertical extent.
    pub h: int,
}

/// Mathematical model of a point.
pub ghost struct PointV {
    /// Horizontal coordinate.
    pub x: int,
    /// Vertical coordinate.
    pub y: int,
}

impl View for Point {
    type V = PointV;

    open spec fn view(&self) -> PointV {
        PointV { x: self.x as int, y: self.y as int }
    }
}

impl View for Rectangle {
    type V = RectV;

    open spec fn view(&self) -> RectV {
        RectV { x: self.x as int, y: self.y as int, w: self.width as int, h: self.height as int }
    }
}

/// The smaller of two integers.
pub open spec fn min_int(a: int, b: int) -> int {
    if a <= b {
        a
    } else {
        b
    }
}

/// The larger of two integers.
pub open spec fn max_int(a: int, b: int) -> int {
    if a >= b {
        a
    } else {
        b
    }
}

/// `v` limited to the interval `[lo, hi]`; when `lo > hi`, the upper
/// limit is applied last and wins.
pub open spec fn clamp_int(v: int, lo: int, hi: int) -> int {
    min_int(max_int(v, lo), hi)
}

impl RectV {
    /// Origin relocated so that both extents are non-negative.
    pub open spec fn norm(self) -> RectV {
        RectV {
            x: if self.w < 0 {
                self.x + self.w
            } else {
                self.x
            },
            y: if self.h < 0 {
                self.y + self.h
            } else {
                self.y
            },
            w: if self.w < 0 {
                -self.w
            } else {
                self.w
            },
            h: if self.h < 0 {
                -self.h
            } else {
                self.h
            },
        }
    }

    /// The point `p` falls inside the rectangle; the right and bottom
    /// edges are exclusive.
    pub open spec fn holds_point(self, p: PointV) -> bool {
        self.x <= p.x < self.x + self.w && self.y <= p.y < self.y + self.h
    }

    /// `inner` lies entirely inside `self`; meaningful for rectangles
    /// with non-negative extents.
    pub open spec fn encloses(self, inner: RectV) -> bool {
        self.x <= inner.x && inner.x + inner.w <= self.x + self.w && self.y <= inner.y && inner.y
            + inner.h <= self.y + self.h
    }

    /// `self` moved and shrunk so it lies inside `container`: the origin
    /// is clamped into the container, each extent loses what the origin
    /// shift consumed and is then limited to the room that remains, never
    /// below zero.
    pub open spec fn clip(self, container: RectV) -> RectV {
        let nx = clamp_int(self.x, container.x, container.x + container.w);
        let ny = clamp_int(self.y, container.y, container.y + container.h);
        RectV {
            x: nx,
            y: ny,
            w: clamp_int(self.w - (nx - self.x), 0, container.x + container.w - nx),
            h: clamp_int(self.h - (ny - self.y), 0, container.y + container.h - ny),
        }
    }
}

impl Rectangle {
    /// All four fields are in the library's range.
    pub open spec fn wf(self) -> bool {
        in_range(self.x as int) && in_range(self.y as int) && in_range(self.width as int)
            && in_range(self.height as int)
    }

    /// All four fields are accepted by the geometry operations.
    pub open spec fn loose_wf(self) -> bool {
        loose(self.x as int) && loose(self.y as int) && loose(self.width as int) && loose(
            self.height as int,
        )
    }

    /// Make a rectangle from a corner point and a size.
    pub fn new(pos: Point, size: Size) -> (r: Rectangle)
        ensures
            r.x == pos.x,
            r.y == pos.y,
            r.width == size.width,
            r.height == size.height,
    {
        Rectangle { x: pos.x, y: pos.y, width: size.width, height: size.height }
    }

    /// The origin corner of the rectangle.
    pub fn pos(self) -> (r: Point)
        ensures
            r@ == (PointV { x: self@.x, y: self@.y }),
    {
        Point { x: self.x, y: self.y }
    }

    /// The extents of the rectangle.
    pub fn size(self) -> (r: Size)
        ensures
            r.width == self.width,
            r.height == self.height,
    {
        Size { width: self.width, height: self.height }
    }

    /// The rectangle with its horizontal coordinate replaced.
    pub fn with_x(self, x: i64) -> (r: Rectangle)
        ensures
            r@ == (RectV { x: x as int, ..self@ }),
    {
        Rectangle { x, ..self }
    }

    /// The rectangle with its vertical coordinate replaced.
    pub fn with_y(self, y: i64) -> (r: Rectangle)
        ensures
            r@ == (RectV { y: y as int, ..self@ }),
    {
        Rectangle { y, ..self }
    }

    /// The rectangle with its width replaced.
    pub fn with_width(self, width: i64) -> (r: Rectangle)
        ensures
            r@ == (RectV { w: width as int, ..self@ }),
    {
        Rectangle { width, ..self }
    }

    /// The rectangle with its height replaced.
    pub fn with_height(self, height: i64) -> (r: Rectangle)
        ensures
            r@ == (RectV { h: height as int, ..self@ }),
    {
        Rectangle { height, ..self }
    }

    /// The rectangle with its origin corner replaced.
    pub fn with_pos(self, pos: Point) -> (r: Rectangle)
        ensures
            r@ == (RectV { x: pos@.x, y: pos@.y, ..self@ }),
    {
        Rectangle { x: pos.x, y: pos.y, ..self }
    }

    /// The rectangle with its extents replaced.
    pub fn with_size(self, size: Size) -> (r: Rectangle)
        ensures
            r@ == (RectV { w: size.width as int, h: size.height as int, ..self@ }),
    {
        Rectangle { width: size.width, height: size.height, ..self }
    }

    /// The origin is relocated so that width and height are both
    /// non-negative; the set of covered pixels is unchanged.
    pub fn norm(self) -> (r: Rectangle)
        requires
            self.loose_wf(),
        ensures
            r@ == self@.norm(),
    {
        let mut out = self;
        if self.width < 0 {
            out.x = out.x + out.width;
            out.width = -out.width;
        }
        if self.height < 0 {
            out.y = out.y + out.height;
            out.height = -out.height;
        }
        out
    }

    /// The point falls inside the rectangle; right and bottom edges are
    /// exclusive.
    pub fn contains(self, point: Point) -> (r: bool)
        requires
            wider(self.x as int),
            wider(self.y as int),
            wider(self.width as int),
            wider(self.height as int),
            wider(point.x as int),
            wider(point.y as int),
        ensures
            r == self@.holds_point(point@),
    {
        self.x <= point.x && point.x < self.x + self.width && self.y <= point.y && point.y
            < self.y + self.height
    }

    /// `self` moved and shrunk so it lies entirely inside `container`;
    /// parts that overflow are cut off.
    pub fn clipped_in_bounds_of(self, container: Rectangle) -> (r: Rectangle)
        requires
            self.loose_wf(),
            container.loose_wf(),
        ensures
            r@ == self@.clip(container@),
    {
        let right = container.x + container.width;
        let bottom = container.y + container.height;
        let nx = clamp_coord(self.x, container.x, right);
        let ny = clamp_coord(self.y, container.y, bottom);
        let nw = clamp_coord(self.width - (nx - self.x), 0, right - nx);
        let nh = clamp_coord(self.height - (ny - self.y), 0, bottom - ny);
        Rectangle { x: nx, y: ny, width: nw, height: nh }
    }

    /// Horizontal coordinate at which `size` would be centered in `self`.
    pub fn center_x_for(self, size: Size) -> (r: i64)
        requires
            self.loose_wf(),
            size.wf(),
        ensures
            r as int == self@.x + half_toward_zero(self@.w - size.width as int),
    {
        self.x + half_i64(self.width - size.width)
    }

    /// Vertical coordinate at which `size` would be centered in `self`.
    pub fn center_y_for(self, size: Size) -> (r: i64)
        requires
            self.loose_wf(),
            size.wf(),
        ensures
            r as int == self@.y + half_toward_zero(self@.h - size.height as int),
    {
        self.y + half_i64(self.height - size.height)
    }

    /// Point at which `size` would be centered in `self`.
    pub fn center_for(self, size: Size) -> (r: Point)
        requires
            self.loose_wf(),
            size.wf(),
        ensures
            r@.x == self@.x + half_toward_zero(self@.w - size.width as int),
            r@.y == self@.y + half_toward_zero(self@.h - size.height as int),
    {
        Point { x: self.center_x_for(size), y: self.center_y_for(size) }
    }

    /// Position of the top-left corner (the origin corner).
    pub fn top_left(self) -> (r: Point)
        ensures
            r@ == (PointV { x: self@.x, y: self@.y }),
    {
        Point { x: self.x, y: self.y }
    }

    /// Position of the top-right corner.
    pub fn top_right(self) -> (r: Point)
        requires
            self.loose_wf(),
        ensures
            r@ == (PointV { x: self@.x + self@.w, y: self@.y }),
    {
        Point { x: self.x + self.width, y: self.y }
    }

    /// Position of the bottom-left corner.
    pub fn bottom_left(self) -> (r: Point)
        requires
            self.loose_wf(),
        ensures
            r@ == (PointV { x: self@.x, y: self@.y + self@.h }),
    {
        Point { x: self.x, y: self.y + self.height }
    }

    /// Position of the bottom-right corner.
    pub fn bottom_right(self) -> (r: Point)
        requires
            self.loose_wf(),
        ensures
            r@ == (PointV { x: self@.x + self@.w, y: self@.y + self@.h }),
    {
        Point { x: self.x + self.width, y: self.y + self.height }
    }
}

impl Rectangle {
    /// The normalized rectangle as a value, exactly what the executable
    /// `norm` returns; meaningful when the fields are within the loose
    /// range, so the sums fit.
    pub open spec fn spec_norm(self) -> Rectangle {
        Rectangle {
            x: (self@.norm().x) as i64,
            y: (self@.norm().y) as i64,
            width: (self@.norm().w) as i64,
            height: (self@.norm().h) as i64,
        }
    }
}

/// `v` limited to `[lo, hi]`; the upper limit is applied last, so it
/// wins when `lo > hi`.
pub fn clamp_coord(v: i64, lo: i64, hi: i64) -> (r: i64)
    requires
        -(8 * LOOSE_COORD as int) <= v as int <= 8 * LOOSE_COORD as int,
        -(8 * LOOSE_COORD as int) <= lo as int <= 8 * LOOSE_COORD as int,
        -(8 * LOOSE_COORD as int) <= hi as int <= 8 * LOOSE_COORD as int,
    ensures
        r as int == clamp_int(v as int, lo as int, hi as int),
{
    let raised: i64 = if v >= lo {
        v
    } else {
        lo
    };
    if raised <= hi {
        raised
    } else {
        hi
    }
}

/// Half of `v`, rounded toward zero.
pub open spec fn half_toward_zero(v: int) -> int {
    if v >= 0 {
        v / 2
    } else {
        -((-v) / 2)
    }
}

/// Half of `v`, rounded toward zero.
pub fn half_i64(v: i64) -> (r: i64)
    requires
        -(4 * LOOSE_COORD as int) <= v as int <= 4 * LOOSE_COORD as int,
    ensures
        r as int == half_toward_zero(v as int),
{
    if v >= 0 {
        v / 2
    } else {
        -((-v) / 2)
    }
}

impl Point {
    /// The point as a displacement from the origin.
    pub fn into_vector(self) -> (r: Vector)
        ensures
            r.x == self.x,
            r.y == self.y,
    {
        Vector { x: self.x, y: self.y }
    }

    /// The point with its horizontal coordinate replaced.
    pub fn with_x(self, x: i64) -> (r: Point)
        ensures
            r.x == x,
            r.y == self.y,
    {
        Point { x, y: self.y }
    }

    /// The point with its vertical coordinate replaced.
    pub fn with_y(self, y: i64) -> (r: Point)
        ensures
            r.x == self.x,
            r.y == y,
    {
        Point { x: self.x, y }
    }

    /// The midpoint of two points; odd sums round toward zero.
    pub fn mid(self, other: Point) -> (r: Point)
        requires
            self.loose_wf(),
            other.loose_wf(),
        ensures
            r@.x == half_toward_zero(self@.x + other@.x),
            r@.y == half_toward_zero(self@.y + other@.y),
    {
        Point { x: half_i64(self.x + other.x), y: half_i64(self.y + other.y) }
    }
}

/// Corner of a rectangle.
#[derive(Copy, Clone, Debug, PartialEq, Eq, Structural)]
pub enum Corner {
    /// Top-left corner.
    TopLeft,
    /// Top-right corner.
    TopRight,
    /// Bottom-left corner.
    BottomLeft,
    /// Bottom-right corner.
    BottomRight,
}

/// Side of a rectangle.
#[derive(Copy, Clone, Debug, PartialEq, Eq, Structural)]
pub enum Side {
    /// Top side.
    Top,
    /// Right side.
    Right,
    /// Bottom side.
    Bottom,
    /// Left side.
    Left,
}

/// A cardinal direction to move, extend or shrink towards.
#[derive(Copy, Clone, Debug, PartialEq, Eq, Structural)]
pub enum Direction {
    /// Above.
    Up,
    /// Below.
    Down,
    /// To the left.
    Left,
    /// To the right.
    Right,
}

/// Either a side or a corner of a rectangle.
#[derive(Copy, Clone, Debug, PartialEq, Eq, Structural)]
pub enum SideOrCorner {
    /// One of the 4 sides.
    Side(Side),
    /// One of the 4 corners.
    Corner(Corner),
}

/// Shape the pointer cursor should take while over or while dragging a
/// feature of the selection.
#[derive(Copy, Clone, Debug, PartialEq, Eq, Structural)]
pub enum PointerShape {
    /// Resizing a horizontal edge.
    ResizingVertically,
    /// Resizing a vertical edge.
    ResizingHorizontally,
    /// Resizing along the top-left to bottom-right diagonal.
    ResizingDiagonallyDown,
    /// Resizing along the bottom-left to top-right diagonal.
    ResizingDiagonallyUp,
    /// Hovering something that can be dragged.
    Grab,
    /// Dragging something.
    Grabbing,
    /// Over empty space where a selection can be created.
    Crosshair,
}

impl Side {
    /// Default keybinding (letter, arrow glyph) for moving towards this
    /// side.
    pub fn default_keys(self) -> (r: (&'static str, &'static str))
        ensures
            self is Top ==> r.0@ == "k"@ && r.1@ == "\u{1F871}"@,
            self is Right ==> r.0@ == "l"@ && r.1@ == "\u{1F872}"@,
            self is Bottom ==> r.0@ == "j"@ && r.1@ == "\u{1F873}"@,
            self is Left ==> r.0@ == "h"@ && r.1@ == "\u{1F870}"@,
    {
        match self {
            Side::Top => ("k", "\u{1F871}"),
            Side::Right => ("l", "\u{1F872}"),
            Side::Bottom => ("j", "\u{1F873}"),
            Side::Left => ("h", "\u{1F870}"),
        }
    }
}

impl SideOrCorner {
    /// The pointer shape that signals this feature can be resized.
    pub fn mouse_icon(self) -> (r: PointerShape)
        ensures
            r == spec_mouse_icon(self),
    {
        match self {
            SideOrCorner::Side(side) => match side {
                Side::Top | Side::Bottom => PointerShape::ResizingVertically,
                Side::Right | Side::Left => PointerShape::ResizingHorizontally,
            },
            SideOrCorner::Corner(corner) => match corner {
                Corner::TopLeft | Corner::BottomRight => PointerShape::ResizingDiagonallyDown,
                Corner::TopRight | Corner::BottomLeft => PointerShape::ResizingDiagonallyUp,
            },
        }
    }
}

impl SideOrCorner {
    /// All the names a side or corner may be written as, joined with
    /// commas: the four sides, then the four corners.
    pub fn variants() -> (r: String)
        ensures
            r@ == "top, right, bottom, left, top-left, top-right, bottom-left, bottom-right"@,
    {
        let mut s = String::new();
        s.append("top, right, bottom, left, top-left, top-right, bottom-left, bottom-right");
        assert(s@ =~= "top, right, bottom, left, top-left, top-right, bottom-left, bottom-right"@);
        s
    }

    /// The side or corner written by its lower-case name, as
    /// [`spec_side_or_corner_of`] states; an unknown name is rejected
    /// with a message listing every accepted one.
    pub fn from_name(s: &str) -> (r: Result<SideOrCorner, String>)
        ensures
            match spec_side_or_corner_of(s@) {
                Some(v) => r == Ok::<_, String>(v),
                None => r matches Err(m) && m@ == "expected one of "@
                    + "top, right, bottom, left, top-left, top-right, bottom-left, bottom-right"@,
            },
    {
        let v = crate::text::str_chars(s);
        if crate::text::chars_eq_str(&v, "top") {
            Ok(SideOrCorner::Side(Side::Top))
        } else if crate::text::chars_eq_str(&v, "right") {
            Ok(SideOrCorner::Side(Side::Right))
        } else if crate::text::chars_eq_str(&v, "bottom") {
            Ok(SideOrCorner::Side(Side::Bottom))
        } else if crate::text::chars_eq_str(&v, "left") {
            Ok(SideOrCorner::Side(Side::Left))
        } else if crate::text::chars_eq_str(&v, "top-left") {
            Ok(SideOrCorner::Corner(Corner::TopLeft))
        } else if crate::text::chars_eq_str(&v, "top-right") {
            Ok(SideOrCorner::Corner(Corner::TopRight))
        } else if crate::text::chars_eq_str(&v, "bottom-left") {
            Ok(SideOrCorner::Corner(Corner::BottomLeft))
        } else if crate::text::chars_eq_str(&v, "bottom-right") {
            Ok(SideOrCorner::Corner(Corner::BottomRight))
        } else {
            let mut m = String::new();
            m.append("expected one of ");
            let names = SideOrCorner::variants();
            m.append(names.as_str());
            assert(m@ =~= "expected one of "@
                + "top, right, bottom, left, top-left, top-right, bottom-left, bottom-right"@);
            Err(m)
        }
    }
}

/// The side or corner each lower-case name stands for.
pub open spec fn spec_side_or_corner_of(s: Seq<char>) -> Option<SideOrCorner> {
    if s == "top"@ {
        Some(SideOrCorner::Side(Side::Top))
    } else if s == "right"@ {
        Some(SideOrCorner::Side(Side::Right))
    } else if s == "bottom"@ {
        Some(SideOrCorner::Side(Side::Bottom))
    } else if s == "left"@ {
        Some(SideOrCorner::Side(Side::Left))
    } else if s == "top-left"@ {
        Some(SideOrCorner::Corner(Corner::TopLeft))
    } else if s == "top-right"@ {
        Some(SideOrCorner::Corner(Corner::TopRight))
    } else if s == "bottom-left"@ {
        Some(SideOrCorner::Corner(Corner::BottomLeft))
    } else if s == "bottom-right"@ {
        Some(SideOrCorner::Corner(Corner::BottomRight))
    } else {
        None
    }
}

/// Pointer shape owed for each side or corner.
pub open spec fn spec_mouse_icon(s: SideOrCorner) -> PointerShape {
    match s {
        SideOrCorner::Side(Side::Top) | SideOrCorner::Side(
            Side::Bottom,
        ) => PointerShape::ResizingVertically,
        SideOrCorner::Side(_) => PointerShape::ResizingHorizontally,
        SideOrCorner::Corner(Corner::TopLeft) | SideOrCorner::Corner(
            Corner::BottomRight,
        ) => PointerShape::ResizingDiagonallyDown,
        SideOrCorner::Corner(_) => PointerShape::ResizingDiagonallyUp,
    }
}

/// The rectangle after dragging the two edges adjacent to `corner` by
/// `(dx, dy)`; the corner opposite `corner` keeps its place.
pub open spec fn spec_resize(corner: Corner, r: RectV, dy: int, dx: int) -> RectV {
    match corner {
        Corner::TopLeft => RectV { x: r.x + dx, y: r.y + dy, w: r.w - dx, h: r.h - dy },
        Corner::TopRight => RectV { x: r.x, y: r.y + dy, w: r.w + dx, h: r.h - dy },
        Corner::BottomLeft => RectV { x: r.x + dx, y: r.y, w: r.w - dx, h: r.h + dy },
        Corner::BottomRight => RectV { x: r.x, y: r.y, w: r.w + dx, h: r.h + dy },
    }
}

impl Corner {
    /// Resize `initial_rect` from this corner by the cursor displacement
    /// `(dx, dy)`: only the two edges adjacent to the corner move, so the
    /// opposite corner keeps its place.
    pub fn resize_rect(self, initial_rect: Rectangle, dy: i64, dx: i64) -> (r: Rectangle)
        requires
            initial_rect.loose_wf(),
            loose(dx as int),
            loose(dy as int),
        ensures
            r@ == spec_resize(self, initial_rect@, dy as int, dx as int),
    {
        match self {
            Corner::TopLeft => Rectangle {
                x: initial_rect.x + dx,
                y: initial_rect.y + dy,
                width: initial_rect.width - dx,
                height: initial_rect.height - dy,
            },
            Corner::TopRight => Rectangle {
                x: initial_rect.x,
                y: initial_rect.y + dy,
                width: initial_rect.width + dx,
                height: initial_rect.height - dy,
            },
            Corner::BottomLeft => Rectangle {
                x: initial_rect.x + dx,
                y: initial_rect.y,
                width: initial_rect.width - dx,
                height: initial_rect.height + dy,
            },
            Corner::BottomRight => Rectangle {
                x: initial_rect.x,
                y: initial_rect.y,
                width: initial_rect.width + dx,
                height: initial_rect.height + dy,
            },
        }
    }
}

/// The four corner points of a normalized rectangle.
#[derive(Debug, Clone, Copy, PartialEq, Eq, Structural)]
pub struct Corners {
    /// Top-left corner.
    pub top_left: Point,
    /// Top-right corner.
    pub top_right: Point,
    /// Bottom-left corner.
    pub bottom_left: Point,
    /// Bottom-right corner.
    pub bottom_right: Point,
}

impl Rectangle {
    /// The four corner points, derived from the normalized rectangle.
    pub fn corners(self) -> (r: Corners)
        requires
            self.loose_wf(),
        ensures
            r.top_left@ == (PointV { x: self@.norm().x, y: self@.norm().y }),
            r.top_right@ == (PointV { x: self@.norm().x + self@.norm().w, y: self@.norm().y }),
            r.bottom_left@ == (PointV { x: self@.norm().x, y: self@.norm().y + self@.norm().h }),
            r.bottom_right@ == (PointV {
                x: self@.norm().x + self@.norm().w,
                y: self@.norm().y + self@.norm().h,
            }),
    {
        let rect = self.norm();
        Corners {
            top_left: Point { x: rect.x, y: rect.y },
            top_right: Point { x: rect.x + rect.width, y: rect.y },
            bottom_left: Point { x: rect.x, y: rect.y + rect.height },
            bottom_right: Point { x: rect.x + rect.width, y: rect.y + rect.height },
        }
    }
}

/// Squared Euclidean distance between two points.
pub open spec fn dist2(a: PointV, b: PointV) -> int {
    (a.x - b.x) * (a.x - b.x) + (a.y - b.y) * (a.y - b.y)
}

/// Squared Euclidean distance between two points.
fn dist2_exec(a: Point, b: Point) -> (r: i128)
    requires
        a.loose_wf(),
        b.loose_wf(),
    ensures
        r as int == dist2(a@, b@),
{
    let dx: i128 = (a.x as i128) - (b.x as i128);
    let dy: i128 = (a.y as i128) - (b.y as i128);
    proof {
        assert(dx * dx <= 16 * (LOOSE_COORD as int) * (LOOSE_COORD as int) && dx * dx >= 0)
            by (nonlinear_arith)
            requires
                -(2 * LOOSE_COORD as int) <= dx as int <= 2 * LOOSE_COORD as int,
        ;
        assert(dy * dy <= 16 * (LOOSE_COORD as int) * (LOOSE_COORD as int) && dy * dy >= 0)
            by (nonlinear_arith)
            requires
                -(2 * LOOSE_COORD as int) <= dy as int <= 2 * LOOSE_COORD as int,
        ;
    }
    dx * dx + dy * dy
}

impl Corners {
    /// The corner point of `self` belonging to `corner`.
    pub open spec fn of(self, corner: Corner) -> PointV {
        match corner {
            Corner::TopLeft => self.top_left@,
            Corner::TopRight => self.top_right@,
            Corner::BottomLeft => self.bottom_left@,
            Corner::BottomRight => self.bottom_right@,
        }
    }

    /// All four corner points are accepted by the geometry operations.
    pub open spec fn loose_wf(self) -> bool {
        self.top_left.loose_wf() && self.top_right.loose_wf() && self.bottom_left.loose_wf()
            && self.bottom_right.loose_wf()
    }

    /// All four corner points are within the wide bound.
    pub open spec fn wide_wf(self) -> bool {
        self.top_left.wide_wf() && self.top_right.wide_wf() && self.bottom_left.wide_wf()
            && self.bottom_right.wide_wf()
    }

    /// The corner nearest to `point`; ties resolve in enumeration order
    /// (top-left, top-right, bottom-left, bottom-right) — the first
    /// minimum wins.
    pub open spec fn spec_nearest(self, point: PointV) -> Corner {
        nearest_at_points(
            self.top_left@,
            self.top_right@,
            self.bottom_left@,
            self.bottom_right@,
            point,
        )
    }

    /// Find the corner nearest to `point` by Euclidean distance; returns
    /// its position and which corner it is. Ties resolve to the corner
    /// listed first in enumeration order.
    pub fn nearest_corner(&self, point: Point) -> (r: (Point, Corner))
        requires
            self.loose_wf(),
            point.loose_wf(),
        ensures
            r.1 == self.spec_nearest(point@),
            r.0@ == self.of(r.1),
    {
        let d_tl = dist2_exec(point, self.top_left);
        let d_tr = dist2_exec(point, self.top_right);
        let d_bl = dist2_exec(point, self.bottom_left);
        let d_br = dist2_exec(point, self.bottom_right);
        if d_tl <= d_tr && d_tl <= d_bl && d_tl <= d_br {
            (self.top_left, Corner::TopLeft)
        } else if d_tr <= d_bl && d_tr <= d_br {
            (self.top_right, Corner::TopRight)
        } else if d_bl <= d_br {
            (self.bottom_left, Corner::BottomLeft)
        } else {
            (self.bottom_right, Corner::BottomRight)
        }
    }
}

/// Side length of the square interaction zone around each corner, and
/// thickness of the interaction strip along each side.
pub const FRAME_INTERACTION_AREA: i64 = 35;

/// Half the interaction zone, rounded down.
pub const HALF_INTERACTION: i64 = 17;

/// The square interaction zone centered on a corner point.
pub open spec fn corner_zone(pt: PointV) -> RectV {
    RectV {
        x: pt.x - HALF_INTERACTION as int,
        y: pt.y - HALF_INTERACTION as int,
        w: FRAME_INTERACTION_AREA as int,
        h: FRAME_INTERACTION_AREA as int,
    }
}

/// The interaction strip along a horizontal side running from `start`
/// to `end`.
pub open spec fn h_strip(start: PointV, end: PointV) -> RectV {
    RectV {
        x: start.x,
        y: start.y - HALF_INTERACTION as int,
        w: end.x - start.x,
        h: FRAME_INTERACTION_AREA as int,
    }
}

/// The interaction strip along a vertical side running from `start` to
/// `end`.
pub open spec fn v_strip(start: PointV, end: PointV) -> RectV {
    RectV {
        x: start.x - HALF_INTERACTION as int,
        y: start.y,
        w: FRAME_INTERACTION_AREA as int,
        h: end.y - start.y,
    }
}

/// The feature whose interaction zone holds `p`, for the four corner
/// points of a rectangle: the corner zones are tried first (they
/// overlap the side strips at the vertices and must win), then top,
/// right, left, bottom.
pub open spec fn side_at_points(
    tl: PointV,
    tr: PointV,
    bl: PointV,
    br: PointV,
    p: PointV,
) -> Option<SideOrCorner> {
    if corner_zone(tl).holds_point(p) {
        Some(SideOrCorner::Corner(Corner::TopLeft))
    } else if corner_zone(tr).holds_point(p) {
        Some(SideOrCorner::Corner(Corner::TopRight))
    } else if corner_zone(bl).holds_point(p) {
        Some(SideOrCorner::Corner(Corner::BottomLeft))
    } else if corner_zone(br).holds_point(p) {
        Some(SideOrCorner::Corner(Corner::BottomRight))
    } else if h_strip(tl, tr).holds_point(p) {
        Some(SideOrCorner::Side(Side::Top))
    } else if v_strip(tr, br).holds_point(p) {
        Some(SideOrCorner::Side(Side::Right))
    } else if v_strip(tl, bl).holds_point(p) {
        Some(SideOrCorner::Side(Side::Left))
    } else if h_strip(bl, br).holds_point(p) {
        Some(SideOrCorner::Side(Side::Bottom))
    } else {
        None
    }
}

impl RectV {
    /// The top-left corner point of the normalized rectangle.
    pub open spec fn tl(self) -> PointV {
        PointV { x: self.norm().x, y: self.norm().y }
    }

    /// The top-right corner point of the normalized rectangle.
    pub open spec fn tr(self) -> PointV {
        PointV { x: self.norm().x + self.norm().w, y: self.norm().y }
    }

    /// The bottom-left corner point of the normalized rectangle.
    pub open spec fn bl(self) -> PointV {
        PointV { x: self.norm().x, y: self.norm().y + self.norm().h }
    }

    /// The bottom-right corner point of the normalized rectangle.
    pub open spec fn br(self) -> PointV {
        PointV { x: self.norm().x + self.norm().w, y: self.norm().y + self.norm().h }
    }

    /// The feature of this rectangle whose interaction zone holds `p`.
    pub open spec fn side_hit(self, p: PointV) -> Option<SideOrCorner> {
        side_at_points(self.tl(), self.tr(), self.bl(), self.br(), p)
    }

    /// The corner of this rectangle nearest to `p`, first minimum
    /// winning in enumeration order.
    pub open spec fn nearest_hit(self, p: PointV) -> Corner {
        nearest_at_points(self.tl(), self.tr(), self.bl(), self.br(), p)
    }

    /// The corner point of the normalized rectangle belonging to
    /// `corner`.
    pub open spec fn corner_point(self, corner: Corner) -> PointV {
        match corner {
            Corner::TopLeft => self.tl(),
            Corner::TopRight => self.tr(),
            Corner::BottomLeft => self.bl(),
            Corner::BottomRight => self.br(),
        }
    }
}

/// The corner among four points nearest to `p`, first minimum winning
/// in the order top-left, top-right, bottom-left, bottom-right.
pub open spec fn nearest_at_points(
    tl: PointV,
    tr: PointV,
    bl: PointV,
    br: PointV,
    p: PointV,
) -> Corner {
    let d_tl = dist2(p, tl);
    let d_tr = dist2(p, tr);
    let d_bl = dist2(p, bl);
    let d_br = dist2(p, br);
    if d_tl <= d_tr && d_tl <= d_bl && d_tl <= d_br {
        Corner::TopLeft
    } else if d_tr <= d_bl && d_tr <= d_br {
        Corner::TopRight
    } else if d_bl <= d_br {
        Corner::BottomLeft
    } else {
        Corner::BottomRight
    }
}

impl Corners {
    /// The feature whose interaction zone holds `p`, as
    /// [`side_at_points`] states over the four corner points.
    pub open spec fn spec_side_at(self, p: PointV) -> Option<SideOrCorner> {
        side_at_points(self.top_left@, self.top_right@, self.bottom_left@, self.bottom_right@, p)
    }

    /// Hit-test `point` against the interaction zones: a square of side
    /// [`FRAME_INTERACTION_AREA`] around each corner, and a strip of the
    /// same thickness along each side. Corners win where zones overlap.
    pub fn side_at(&self, point: Point) -> (r: Option<SideOrCorner>)
        requires
            self.wide_wf(),
            point.wide_wf(),
        ensures
            r == self.spec_side_at(point@),
    {
        let zone = |pt: Point| -> (z: Rectangle)
            requires
                pt.wide_wf(),
            ensures
                z@ == corner_zone(pt@),
            {
                Rectangle {
                    x: pt.x - HALF_INTERACTION,
                    y: pt.y - HALF_INTERACTION,
                    width: FRAME_INTERACTION_AREA,
                    height: FRAME_INTERACTION_AREA,
                }
            };
        let top = Rectangle {
            x: self.top_left.x,
            y: self.top_left.y - HALF_INTERACTION,
            width: self.top_right.x - self.top_left.x,
            height: FRAME_INTERACTION_AREA,
        };
        let bottom = Rectangle {
            x: self.bottom_left.x,
            y: self.bottom_left.y - HALF_INTERACTION,
            width: self.bottom_right.x - self.bottom_left.x,
            height: FRAME_INTERACTION_AREA,
        };
        let left = Rectangle {
            x: self.top_left.x - HALF_INTERACTION,
            y: self.top_left.y,
            width: FRAME_INTERACTION_AREA,
            height: self.bottom_left.y - self.top_left.y,
        };
        let right = Rectangle {
            x: self.top_right.x - HALF_INTERACTION,
            y: self.top_right.y,
            width: FRAME_INTERACTION_AREA,
            height: self.bottom_right.y - self.top_right.y,
        };
        if zone(self.top_left).contains(point) {
            Some(SideOrCorner::Corner(Corner::TopLeft))
        } else if zone(self.top_right).contains(point) {
            Some(SideOrCorner::Corner(Corner::TopRight))
        } else if zone(self.bottom_left).contains(point) {
            Some(SideOrCorner::Corner(Corner::BottomLeft))
        } else if zone(self.bottom_right).contains(point) {
            Some(SideOrCorner::Corner(Corner::BottomRight))
        } else if top.contains(point) {
            Some(SideOrCorner::Side(Side::Top))
        } else if right.contains(point) {
            Some(SideOrCorner::Side(Side::Right))
        } else if left.contains(point) {
            Some(SideOrCorner::Side(Side::Left))
        } else if bottom.contains(point) {
            Some(SideOrCorner::Side(Side::Bottom))
        } else {
            None
        }
    }
}

/// Normalization is idempotent and always yields non-negative extents.
pub proof fn lemma_norm_idempotent(r: RectV)
    ensures
        r.norm().norm() == r.norm(),
        r.norm().w >= 0,
        r.norm().h >= 0,
{
}

/// The corner of `r` opposite to `corner`.
pub open spec fn opposite_corner(corner: Corner, r: RectV) -> PointV {
    match corner {
        Corner::TopLeft => PointV { x: r.x + r.w, y: r.y + r.h },
        Corner::TopRight => PointV { x: r.x, y: r.y + r.h },
        Corner::BottomLeft => PointV { x: r.x + r.w, y: r.y },
        Corner::BottomRight => PointV { x: r.x, y: r.y },
    }
}

/// Resizing from a corner leaves the opposite corner at the same
/// absolute point as in the initial rectangle.
pub proof fn lemma_resize_keeps_opposite_corner(corner: Corner, r: RectV, dy: int, dx: int)
    ensures
        opposite_corner(corner, spec_resize(corner, r, dy, dx)) == opposite_corner(corner, r),
{
}

/// Clipping a rectangle into bounds with non-negative extents yields a
/// rectangle that lies within the bounds, and leaves a rectangle that
/// already lies within them (with non-negative extents) unchanged.
pub proof fn lemma_clip_law(r: RectV, b: RectV)
    requires
        b.w >= 0,
        b.h >= 0,
    ensures
        b.encloses(r.clip(b)),
        r.clip(b).w >= 0,
        r.clip(b).h >= 0,
        b.encloses(r) && r.w >= 0 && r.h >= 0 ==> r.clip(b) == r,
{
}

/// When a point is equidistant from all four corners (as in the exact
/// center of a square), the nearest corner is the top-left one.
pub proof fn lemma_nearest_corner_tie_is_top_left(c: Corners, p: PointV)
    requires
        dist2(p, c.top_left@) == dist2(p, c.top_right@),
        dist2(p, c.top_left@) == dist2(p, c.bottom_left@),
        dist2(p, c.top_left@) == dist2(p, c.bottom_right@),
    ensures
        c.spec_nearest(p) == Corner::TopLeft,
{
}

} // verus!
