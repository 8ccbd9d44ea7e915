//! The region specification micro-language.
//!
//! Grammar: `full`, or `W x H + X + Y` followed by up to two nudge
//! suffixes `("+"|"-") digits "%"`. `W`, `H`, `X` and the leading digit
//! run of the tail are length tokens: an unsigned integer is an absolute
//! pixel count, anything else must read as a plain decimal number and is
//! a fraction of the yet-unknown container dimension. The first nudge
//! shifts the resolved x by that fraction of the resolved width, the
//! second shifts y by that fraction of the resolved height.
//!
//! A parsed [`LazyRectangle`] is resolved against concrete container
//! bounds by [`LazyRectangle::init`], which finally clips the result so
//! it lies inside the bounds.
//!
//! Fractions are kept exactly as `num / 10^scale`; resolving multiplies
//! by the container dimension first and divides last, rounding toward
//! zero. The mantissa is capped at [`NUM_MAX`] and the scale at
//! [`MAX_SCALE`] digits; a longer token is rejected as unparsable.

use vstd::prelude::*;

use crate::geometry::{clamp_int, MAX_COORD, PointV, Rectangle, RectV};
use crate::text::{
    all_digits, chars_to_string, copy_range, dec_digits, digits_val, fmt_u64, lemma_dec_digits,
    lemma_digits_val_nonneg, pow10, push_dec_digits, str_chars,
};

verus! {

/// Largest mantissa a fractional value may carry.
pub const NUM_MAX: u64 = 0xFFFF_FFFF;

/// Largest number of fractional digits a value may carry.
pub const MAX_SCALE: u32 = 9;

/// A plain decimal number `(-1)^negative * num / 10^scale`.
#[derive(Clone, Copy, Debug, PartialEq, Eq, Structural)]
pub struct Percentage {
    /// The value is negated.
    pub negative: bool,
    /// Mantissa; at most [`NUM_MAX`].
    pub num: u64,
    /// Number of fractional digits; at most [`MAX_SCALE`].
    pub scale: u32,
}

/// Failed to read a token as a plain decimal number.
#[derive(Clone, Copy, Debug, PartialEq, Eq, Structural)]
pub enum ParsePercentageError {
    /// The token is not a decimal number the library can hold.
    ParseFloatError,
}

/// Failed to read a token as a length.
#[derive(Clone, Copy, Debug, PartialEq, Eq, Structural)]
pub enum ParseLengthError {
    /// Neither an unsigned integer nor a decimal number.
    ParsePercentageError(ParsePercentageError),
    /// An integer token out of range.
    ParseIntError,
}

/// One axis extent or coordinate of the rectangle.
#[derive(Clone, Copy, Debug, PartialEq, Eq, Structural)]
pub enum Length {
    /// A specific number of pixels.
    Absolute(u32),
    /// A fraction of another, yet-unknown value.
    Relative(Percentage),
}

/// A signed percentage shift applied to a coordinate after its base
/// position is resolved, relative to the corresponding rectangle
/// dimension.
#[derive(Clone, Copy, Debug, PartialEq, Eq, Structural)]
pub struct Nudge {
    /// Shift by this fraction of the resolved width or height.
    pub by: Percentage,
    /// Shift left or up rather than right or down.
    pub is_negative: bool,
}

/// A coordinate: a base position plus an optional nudge.
#[derive(Clone, Copy, Debug, PartialEq, Eq, Structural)]
pub struct Coord {
    /// Base position, before any nudge.
    pub original_position: Length,
    /// Optional shift of the base position.
    pub nudge: Option<Nudge>,
}

/// A rectangle relative to a yet-unknown container; it becomes a
/// concrete [`Rectangle`] once the container bounds are known.
#[derive(Clone, Copy, Debug, PartialEq, Eq, Structural)]
pub struct LazyRectangle {
    /// Horizontal coordinate of the top-left corner.
    pub x: Coord,
    /// Vertical coordinate of the top-left corner.
    pub y: Coord,
    /// Width.
    pub width: Length,
    /// Height.
    pub height: Length,
}

impl Percentage {
    /// The mantissa and scale are within their caps.
    pub open spec fn wf(self) -> bool {
        self.num <= NUM_MAX && self.scale <= MAX_SCALE
    }
}

impl Length {
    /// Any fractional part is within its caps.
    pub open spec fn wf(self) -> bool {
        match self {
            Length::Absolute(_) => true,
            Length::Relative(p) => p.wf(),
        }
    }
}

impl Coord {
    /// The base position and any nudge are within their caps.
    pub open spec fn wf(self) -> bool {
        &&& self.original_position.wf()
        &&& match self.nudge {
            Some(n) => n.by.wf(),
            None => true,
        }
    }
}

impl LazyRectangle {
    /// Every component is within its caps.
    pub open spec fn wf(self) -> bool {
        self.x.wf() && self.y.wf() && self.width.wf() && self.height.wf()
    }

    /// The lazy rectangle that expands to its entire container.
    pub open spec fn spec_full() -> LazyRectangle {
        LazyRectangle {
            x: Coord { original_position: Length::Absolute(0), nudge: None },
            y: Coord { original_position: Length::Absolute(0), nudge: None },
            width: Length::Relative(Percentage { negative: false, num: 1, scale: 0 }),
            height: Length::Relative(Percentage { negative: false, num: 1, scale: 0 }),
        }
    }

    /// The lazy rectangle that expands to its entire container: both
    /// coordinates zero, width and height the whole container dimension.
    pub fn full() -> (r: LazyRectangle)
        ensures
            r == LazyRectangle::spec_full(),
    {
        LazyRectangle {
            x: Coord { original_position: Length::Absolute(0), nudge: None },
            y: Coord { original_position: Length::Absolute(0), nudge: None },
            width: Length::Relative(Percentage { negative: false, num: 1, scale: 0 }),
            height: Length::Relative(Percentage { negative: false, num: 1, scale: 0 }),
        }
    }
}

/// `v / d` rounded toward zero, for positive `d`.
pub open spec fn div_toward_zero(v: int, d: int) -> int {
    if v >= 0 {
        v / d
    } else {
        -((-v) / d)
    }
}

/// Value of a length against a container dimension: an absolute length
/// is itself; a relative one is its fraction of `dim`, rounded toward
/// zero.
pub open spec fn resolve_val(len: Length, dim: int) -> int {
    match len {
        Length::Absolute(n) => n as int,
        Length::Relative(p) => {
            let m = div_toward_zero(p.num * dim, pow10(p.scale as nat) as int);
            if p.negative {
                -m
            } else {
                m
            }
        },
    }
}

/// Pixel shift of a nudge: its fraction of the resolved length of the
/// corresponding dimension, rounded toward zero, with its sign applied.
pub open spec fn nudge_val(nudge: Nudge, len: Length, dim: int) -> int {
    let base = resolve_val(len, dim);
    let m = div_toward_zero(nudge.by.num * base, pow10(nudge.by.scale as nat) as int);
    let signed = if nudge.by.negative {
        -m
    } else {
        m
    };
    if nudge.is_negative {
        -signed
    } else {
        signed
    }
}

/// Value of a coordinate: its base position resolved against `dim`,
/// shifted by any nudge, whose reference length is `len` (the width for
/// x, the height for y) resolved against the same `dim`.
pub open spec fn coord_val(coord: Coord, len: Length, dim: int) -> int {
    resolve_val(coord.original_position, dim) + match coord.nudge {
        Some(n) => nudge_val(n, len, dim),
        None => 0,
    }
}

impl LazyRectangle {
    /// The concrete rectangle for container `bounds`: widths and x
    /// resolve against the container width, heights and y against its
    /// height, nudges shift the coordinates, and the result is clipped
    /// into the bounds.
    pub open spec fn spec_init(self, bounds: RectV) -> RectV {
        let raw = RectV {
            x: coord_val(self.x, self.width, bounds.w),
            y: coord_val(self.y, self.height, bounds.h),
            w: resolve_val(self.width, bounds.w),
            h: resolve_val(self.height, bounds.h),
        };
        raw.clip(bounds)
    }
}

/// `v / d` rounded toward zero, for positive `d`.
fn div_toward_zero_i128(v: i128, d: i128) -> (r: i128)
    requires
        0 < d,
        i128::MIN < v,
    ensures
        r as int == div_toward_zero(v as int, d as int),
        v >= 0 ==> 0 <= r <= v,
        v < 0 ==> v <= r <= 0,
{
    if v >= 0 {
        let q = v / d;
        proof {
            vstd::arithmetic::div_mod::lemma_div_nonincreasing(v as int, d as int);
            vstd::arithmetic::div_mod::lemma_div_pos_is_pos(v as int, d as int);
        }
        q
    } else {
        let q = (-v) / d;
        proof {
            vstd::arithmetic::div_mod::lemma_div_nonincreasing(-v as int, d as int);
            vstd::arithmetic::div_mod::lemma_div_pos_is_pos(-v as int, d as int);
        }
        -q
    }
}

/// Ten to the power `e`, for `e` up to [`MAX_SCALE`].
fn pow10_exec(e: u32) -> (r: u64)
    requires
        e <= MAX_SCALE,
    ensures
        r == pow10(e as nat),
        1 <= r <= 1_000_000_000,
{
    let mut out: u64 = 1;
    let mut i: u32 = 0;
    while i < e
        invariant
            i <= e <= MAX_SCALE,
            out == pow10(i as nat),
            out <= 1_000_000_000,
        decreases e - i,
    {
        proof {
            lemma_pow10_bounds(i as nat);
            lemma_pow10_bounds((i + 1) as nat);
        }
        out = out * 10;
        i = i + 1;
    }
    proof {
        lemma_pow10_pos(e as nat);
    }
    out
}

/// `pow10` never decreases as the exponent grows.
proof fn lemma_pow10_le(e: nat, f: nat)
    requires
        e <= f,
    ensures
        pow10(e) <= pow10(f),
    decreases f,
{
    if e < f {
        lemma_pow10_le(e, (f - 1) as nat);
        lemma_pow10_pos((f - 1) as nat);
    }
}

/// `pow10` grows by tens and stays small for exponents up to nine.
proof fn lemma_pow10_bounds(e: nat)
    requires
        e <= 9,
    ensures
        pow10(e) <= 1_000_000_000nat,
        pow10(e + 1) == 10 * pow10(e),
{
    assert(pow10(0) == 1);
    assert(pow10(1) == 10);
    assert(pow10(2) == 100);
    assert(pow10(3) == 1000);
    assert(pow10(4) == 10000);
    assert(pow10(5) == 100000);
    assert(pow10(6) == 1000000);
    assert(pow10(7) == 10000000);
    assert(pow10(8) == 100000000);
    assert(pow10(9) == 1000000000);
    lemma_pow10_le(e, 9);
}

/// Magnitude bound on a resolved length: the mantissa cap times the
/// in-range dimension cap.
pub const RES_LIMIT: i128 = 0x4000_0000_0000_0000;

/// Magnitude bound on a resolved, nudged coordinate.
pub const COORD_LIMIT: i128 = 0x8000_0000_0000_0000_0000_0000;

impl Length {
    /// The length resolved against a container dimension `dim`: an
    /// absolute length is its own pixel count; a relative one is its
    /// fraction of `dim`, rounded toward zero.
    pub fn resolve(self, dim: i64) -> (r: i128)
        requires
            self.wf(),
            crate::geometry::in_range(dim as int),
        ensures
            r as int == resolve_val(self, dim as int),
            -RES_LIMIT <= r <= RES_LIMIT,
    {
        match self {
            Length::Absolute(n) => n as i128,
            Length::Relative(p) => {
                proof {
                    lemma_mul_bound_128(p.num as int, dim as int);
                }
                let scaled: i128 = (p.num as i128) * (dim as i128);
                let m = div_toward_zero_i128(scaled, pow10_exec(p.scale) as i128);
                if p.negative {
                    -m
                } else {
                    m
                }
            },
        }
    }
}

/// The product of a capped mantissa and an in-range dimension fits
/// within [`RES_LIMIT`].
proof fn lemma_mul_bound_128(a: int, b: int)
    requires
        0 <= a <= NUM_MAX,
        crate::geometry::in_range(b),
    ensures
        -(RES_LIMIT as int) <= a * b <= RES_LIMIT as int,
{
    assert(-(RES_LIMIT as int) <= a * b <= RES_LIMIT as int) by (nonlinear_arith)
        requires
            0 <= a <= NUM_MAX,
            -(MAX_COORD as int) <= b <= MAX_COORD as int,
    ;
}

impl LazyRectangle {
    /// Resolve against concrete container `bounds` to a rectangle that
    /// lies inside the bounds: lengths and coordinates evaluate as in
    /// [`LazyRectangle::spec_init`], nudges shift the coordinates, and
    /// the raw rectangle is clipped into the bounds.
    pub fn init(self, bounds: Rectangle) -> (r: Rectangle)
        requires
            self.wf(),
            bounds.wf(),
        ensures
            r@ == self.spec_init(bounds@),
    {
        let w_px: i128 = self.width.resolve(bounds.width);
        let h_px: i128 = self.height.resolve(bounds.height);
        let x_px: i128 = resolve_coord(self.x, self.width, bounds.width);
        let y_px: i128 = resolve_coord(self.y, self.height, bounds.height);

        let right: i128 = bounds.x as i128 + bounds.width as i128;
        let bottom: i128 = bounds.y as i128 + bounds.height as i128;
        let nx = clamp_i128(x_px, bounds.x as i128, right);
        let ny = clamp_i128(y_px, bounds.y as i128, bottom);
        let nw = clamp_i128(w_px - (nx - x_px), 0, right - nx);
        let nh = clamp_i128(h_px - (ny - y_px), 0, bottom - ny);
        Rectangle { x: nx as i64, y: ny as i64, width: nw as i64, height: nh as i64 }
    }
}

/// A coordinate resolved against `dim`, nudge applied, as
/// [`coord_val`] states.
fn resolve_coord(coord: Coord, len: Length, dim: i64) -> (r: i128)
    requires
        coord.wf(),
        len.wf(),
        crate::geometry::in_range(dim as int),
    ensures
        r as int == coord_val(coord, len, dim as int),
        -COORD_LIMIT <= r <= COORD_LIMIT,
{
    let base: i128 = coord.original_position.resolve(dim);
    match coord.nudge {
        None => base,
        Some(n) => {
            let ref_len: i128 = len.resolve(dim);
            proof {
                lemma_mul_bound_nudge(n.by.num as int, ref_len as int);
            }
            let scaled: i128 = (n.by.num as i128) * ref_len;
            let m = div_toward_zero_i128(scaled, pow10_exec(n.by.scale) as i128);
            let signed: i128 = if n.by.negative {
                -m
            } else {
                m
            };
            let shift: i128 = if n.is_negative {
                -signed
            } else {
                signed
            };
            base + shift
        },
    }
}

/// The nudge product stays well inside `i128`: the nudge mantissa is
/// capped and the resolved reference length is already bounded.
proof fn lemma_mul_bound_nudge(a: int, b: int)
    requires
        0 <= a <= NUM_MAX,
        -(RES_LIMIT as int) <= b <= RES_LIMIT as int,
    ensures
        -(COORD_LIMIT as int) + RES_LIMIT as int <= a * b <= COORD_LIMIT as int
            - RES_LIMIT as int,
{
    assert(-(COORD_LIMIT as int) + RES_LIMIT as int <= a * b <= COORD_LIMIT as int - RES_LIMIT as int)
        by (nonlinear_arith)
        requires
            0 <= a <= NUM_MAX,
            -(RES_LIMIT as int) <= b <= RES_LIMIT as int,
    ;
}

/// Ten to any power is positive.
proof fn lemma_pow10_pos(e: nat)
    ensures
        pow10(e) >= 1,
    decreases e,
{
    if e > 0 {
        lemma_pow10_pos((e - 1) as nat);
    }
}

/// `v` limited to `[lo, hi]`; the upper limit wins when `lo > hi`.
fn clamp_i128(v: i128, lo: i128, hi: i128) -> (r: i128)
    requires
        -(0x1_0000_0000_0000_0000_0000_0000_0000_0000 as int) / 2 <= v
            <= (0x1_0000_0000_0000_0000_0000_0000_0000_0000 as int) / 2,
        -(0x1_0000_0000_0000_0000_0000_0000_0000_0000 as int) / 2 <= lo
            <= (0x1_0000_0000_0000_0000_0000_0000_0000_0000 as int) / 2,
        -(0x1_0000_0000_0000_0000_0000_0000_0000_0000 as int) / 2 <= hi
            <= (0x1_0000_0000_0000_0000_0000_0000_0000_0000 as int) / 2,
    ensures
        r as int == clamp_int(v as int, lo as int, hi as int),
{
    let raised: i128 = if v >= lo {
        v
    } else {
        lo
    };
    if raised <= hi {
        raised
    } else {
        hi
    }
}

/// A rectangle parse error, with a variant for each way the text can be
/// malformed.
#[derive(Clone, Copy, Debug, PartialEq, Eq, Structural)]
pub enum ParseRectError {
    /// A nudge suffix does not end in a percent sign.
    MissingPercentage,
    /// A nudge suffix begins with this character instead of a sign.
    InvalidSign(char),
    /// The field structure of the text is malformed.
    InvalidFormat,
    /// A nudge percentage does not read as a number.
    PercentageParseError(ParsePercentageError),
    /// A length token does not read as a number.
    ParseLengthError(ParseLengthError),
}

/// The digits of an unsigned integer token: at most one leading `+`
/// sign is allowed and dropped, as the original numeric parse admits.
pub open spec fn uint_body(s: Seq<char>) -> Seq<char> {
    if s.len() > 0 && s[0] == '+' {
        s.subrange(1, s.len() as int)
    } else {
        s
    }
}

/// The token is a well-formed unsigned integer that fits in `u32`: an
/// optional leading `+`, then at least one digit.
pub open spec fn valid_uint(s: Seq<char>) -> bool {
    uint_body(s).len() > 0 && all_digits(uint_body(s)) && digits_val(uint_body(s)) <= u32::MAX
}

/// The leading sign of a decimal token, and the rest of the token.
pub open spec fn strip_sign(s: Seq<char>) -> (bool, Seq<char>) {
    if s.len() > 0 && s[0] == '-' {
        (true, s.subrange(1, s.len() as int))
    } else if s.len() > 0 && s[0] == '+' {
        (false, s.subrange(1, s.len() as int))
    } else {
        (false, s)
    }
}

/// The token read as a plain decimal number: an optional sign, digits,
/// and at most one point with at most [`MAX_SCALE`] digits after it; at
/// least one digit in all, and a mantissa of at most [`NUM_MAX`].
pub open spec fn spec_parse_decimal(s: Seq<char>) -> Option<Percentage> {
    let (neg, body) = strip_sign(s);
    let dot = crate::text::find_at(body, 0, '.');
    if dot >= body.len() {
        if body.len() > 0 && all_digits(body) && digits_val(body) <= NUM_MAX {
            Some(Percentage { negative: neg, num: digits_val(body) as u64, scale: 0 })
        } else {
            None
        }
    } else {
        let ip = body.subrange(0, dot);
        let fp = body.subrange(dot + 1, body.len() as int);
        if ip.len() + fp.len() > 0 && all_digits(ip) && all_digits(fp) && fp.len()
            <= MAX_SCALE as int && digits_val(ip) * pow10(fp.len() as nat) + digits_val(fp)
            <= NUM_MAX {
            Some(
                Percentage {
                    negative: neg,
                    num: (digits_val(ip) * pow10(fp.len() as nat) + digits_val(fp)) as u64,
                    scale: fp.len() as u32,
                },
            )
        } else {
            None
        }
    }
}

/// The token read as a length: an unsigned integer is an absolute pixel
/// count; failing that, a decimal number is a relative fraction.
pub open spec fn spec_parse_length(s: Seq<char>) -> Result<Length, ParseLengthError> {
    if valid_uint(s) {
        Ok(Length::Absolute(digits_val(uint_body(s)) as u32))
    } else {
        match spec_parse_decimal(s) {
            Some(p) => Ok(Length::Relative(p)),
            None => Err(
                ParseLengthError::ParsePercentageError(ParsePercentageError::ParseFloatError),
            ),
        }
    }
}

/// Index of the first character at or after `from` that is neither a
/// digit nor a point, or the length of `s`; the characters before it
/// form the leading length token of the parse tail.
pub open spec fn scan_y_end(s: Seq<char>, from: int) -> int
    decreases s.len() - from,
{
    if from < 0 {
        0
    } else if from >= s.len() {
        s.len() as int
    } else if crate::text::is_digit(s[from]) || s[from] == '.' {
        scan_y_end(s, from + 1)
    } else {
        from
    }
}

/// What [`scan_y_end`] returns: the first non-numeric character at or
/// after `from`, or the length of `s`.
pub proof fn lemma_scan_y_end(s: Seq<char>, from: int)
    requires
        0 <= from <= s.len(),
    ensures
        from <= scan_y_end(s, from) <= s.len(),
        scan_y_end(s, from) < s.len() ==> !(crate::text::is_digit(s[scan_y_end(s, from)])
            || s[scan_y_end(s, from)] == '.'),
        forall|j: int|
            from <= j < scan_y_end(s, from) ==> (crate::text::is_digit(#[trigger] s[j]) || s[j]
                == '.'),
    decreases s.len() - from,
{
    if from < s.len() && (crate::text::is_digit(s[from]) || s[from] == '.') {
        lemma_scan_y_end(s, from + 1);
    }
}

/// Index of the first sign character (`+` or `-`) at or after `from`,
/// or the length of `s`.
pub open spec fn find_sign(s: Seq<char>, from: int) -> int
    decreases s.len() - from,
{
    if from < 0 {
        0
    } else if from >= s.len() {
        s.len() as int
    } else if s[from] == '+' || s[from] == '-' {
        from
    } else {
        find_sign(s, from + 1)
    }
}

/// What [`find_sign`] returns: the first sign character at or after
/// `from`, or the length of `s`.
pub proof fn lemma_find_sign(s: Seq<char>, from: int)
    requires
        0 <= from <= s.len(),
    ensures
        from <= find_sign(s, from) <= s.len(),
        find_sign(s, from) < s.len() ==> (s[find_sign(s, from)] == '+' || s[find_sign(s, from)]
            == '-'),
        forall|j: int| from <= j < find_sign(s, from) ==> (s[j] != '+' && #[trigger] s[j] != '-'),
    decreases s.len() - from,
{
    if from < s.len() && s[from] != '+' && s[from] != '-' {
        lemma_find_sign(s, from + 1);
    }
}

/// The nudge suffixes of `s` from `pos` on, as sign-and-digits pairs:
/// each segment is a sign, a run of characters, and a closing percent
/// sign at the position where the next sign (or the end) begins.
pub open spec fn spec_segments(s: Seq<char>, pos: int) -> Result<
    Seq<(bool, Seq<char>)>,
    ParseRectError,
>
    decreases s.len() - pos,
{
    if pos < 0 || pos >= s.len() {
        Ok(Seq::empty())
    } else if s[pos] != '+' && s[pos] != '-' {
        Err(ParseRectError::InvalidSign(s[pos]))
    } else {
        let neg = s[pos] == '-';
        let raw_stop = find_sign(s, pos + 1);
        let stop = if pos + 1 <= raw_stop <= s.len() {
            raw_stop
        } else {
            s.len() as int
        };
        let part = s.subrange(pos + 1, stop);
        if part.len() == 0 || part.last() != '%' {
            Err(ParseRectError::MissingPercentage)
        } else {
            match spec_segments(s, stop) {
                Ok(rest) => Ok(seq![(neg, part.drop_last())] + rest),
                Err(e) => Err(e),
            }
        }
    }
}

/// A nudge digit run read as a fraction: the run `d` reads as `0.d`,
/// except that exactly `100` reads as one whole.
pub open spec fn spec_nudge_fraction(d: Seq<char>) -> Option<Percentage> {
    if d == seq!['1', '0', '0'] {
        Some(Percentage { negative: false, num: 1, scale: 0 })
    } else if all_digits(d) && d.len() <= MAX_SCALE as int {
        Some(Percentage { negative: false, num: digits_val(d) as u64, scale: d.len() as u32 })
    } else {
        None
    }
}

/// The nudge suffixes starting at `pos` read as the x-axis and y-axis
/// nudges: at most two segments, each a fraction with its sign.
pub open spec fn spec_parse_nudges(s: Seq<char>, pos: int) -> Result<
    (Option<Nudge>, Option<Nudge>),
    ParseRectError,
> {
    match spec_segments(s, pos) {
        Err(e) => Err(e),
        Ok(segs) => {
            if segs.len() > 2 {
                Err(ParseRectError::InvalidFormat)
            } else if segs.len() == 0 {
                Ok((None, None))
            } else {
                match spec_nudge_fraction(segs[0].1) {
                    None => Err(
                        ParseRectError::PercentageParseError(
                            ParsePercentageError::ParseFloatError,
                        ),
                    ),
                    Some(by0) => {
                        let xn = Some(Nudge { by: by0, is_negative: segs[0].0 });
                        if segs.len() == 1 {
                            Ok((xn, None))
                        } else {
                            match spec_nudge_fraction(segs[1].1) {
                                None => Err(
                                    ParseRectError::PercentageParseError(
                                        ParsePercentageError::ParseFloatError,
                                    ),
                                ),
                                Some(by1) => Ok(
                                    (xn, Some(Nudge { by: by1, is_negative: segs[1].0 })),
                                ),
                            }
                        }
                    },
                }
            }
        },
    }
}

/// The whole text read as a lazy rectangle: the literal `full`, or
/// `W x H + X + Y` with up to two nudge suffixes after the digit run of
/// `Y`. Length tokens are parsed after the nudges, in the order x, y,
/// width, height, so the error reported matches the first failure in
/// that order.
pub open spec fn spec_parse_rect(s: Seq<char>) -> Result<LazyRectangle, ParseRectError> {
    if s == "full"@ {
        Ok(LazyRectangle::spec_full())
    } else {
        let ix = crate::text::find_at(s, 0, 'x');
        if ix >= s.len() {
            Err(ParseRectError::InvalidFormat)
        } else {
            let w_tok = s.subrange(0, ix);
            let rest1 = s.subrange(ix + 1, s.len() as int);
            let ih = crate::text::find_at(rest1, 0, '+');
            if ih >= rest1.len() {
                Err(ParseRectError::InvalidFormat)
            } else {
                let h_tok = rest1.subrange(0, ih);
                let rest2 = rest1.subrange(ih + 1, rest1.len() as int);
                let ixc = crate::text::find_at(rest2, 0, '+');
                if ixc >= rest2.len() {
                    Err(ParseRectError::InvalidFormat)
                } else {
                    let x_tok = rest2.subrange(0, ixc);
                    let tail = rest2.subrange(ixc + 1, rest2.len() as int);
                    let ylen = scan_y_end(tail, 0);
                    let y_tok = tail.subrange(0, ylen);
                    match spec_parse_nudges(tail, ylen) {
                        Err(e) => Err(e),
                        Ok((xn, yn)) => match spec_parse_length(x_tok) {
                            Err(e) => Err(ParseRectError::ParseLengthError(e)),
                            Ok(xl) => match spec_parse_length(y_tok) {
                                Err(e) => Err(ParseRectError::ParseLengthError(e)),
                                Ok(yl) => match spec_parse_length(w_tok) {
                                    Err(e) => Err(ParseRectError::ParseLengthError(e)),
                                    Ok(wl) => match spec_parse_length(h_tok) {
                                        Err(e) => Err(ParseRectError::ParseLengthError(e)),
                                        Ok(hl) => Ok(
                                            LazyRectangle {
                                                x: Coord { original_position: xl, nudge: xn },
                                                y: Coord { original_position: yl, nudge: yn },
                                                width: wl,
                                                height: hl,
                                            },
                                        ),
                                    },
                                },
                            },
                        },
                    }
                }
            }
        }
    }
}

/// Every digit string's value is below ten to the power of its length.
proof fn lemma_digits_val_upper(s: Seq<char>)
    requires
        all_digits(s),
    ensures
        digits_val(s) < pow10(s.len()),
    decreases s.len(),
{
    if s.len() == 0 {
    } else {
        assert(all_digits(s.drop_last()));
        lemma_digits_val_upper(s.drop_last());
        lemma_pow10_pos(s.drop_last().len());
        assert(digits_val(s) == digits_val(s.drop_last()) * 10 + crate::text::digit_val(s.last()));
        assert(pow10(s.len()) == 10 * pow10(s.drop_last().len()));
        assert(digits_val(s.drop_last()) * 10 <= (pow10(s.drop_last().len()) - 1) * 10)
            by (nonlinear_arith)
            requires
                digits_val(s.drop_last()) <= pow10(s.drop_last().len()) - 1,
        ;
    }
}

/// Index of the first sign character in `v` at or after `from`, or the
/// length of `v`.
fn find_sign_at(v: &Vec<char>, from: usize) -> (r: usize)
    requires
        from <= v@.len(),
    ensures
        r as int == find_sign(v@, from as int),
{
    let mut i: usize = from;
    while i < v.len()
        invariant
            from <= i <= v@.len(),
            forall|j: int| from <= j < i ==> (v@[j] != '+' && #[trigger] v@[j] != '-'),
        decreases v@.len() - i,
    {
        if v[i] == '+' || v[i] == '-' {
            proof {
                lemma_find_sign(v@, from as int);
            }
            return i;
        }
        i = i + 1;
    }
    proof {
        lemma_find_sign(v@, from as int);
    }
    i
}

/// One parsed nudge suffix: its sign and its digit run.
struct Segment {
    /// The suffix began with a minus sign.
    neg: bool,
    /// The characters between the sign and the percent sign.
    digits: Vec<char>,
}

/// The segments as the spec-level sign-and-digits pairs.
spec fn segs_view(v: Seq<Segment>) -> Seq<(bool, Seq<char>)> {
    Seq::new(v.len(), |i: int| (v[i].neg, v[i].digits@))
}

/// Collect the nudge suffixes of `v` from `pos` on.
fn parse_segments(v: &Vec<char>, pos: usize) -> (r: Result<Vec<Segment>, ParseRectError>)
    requires
        pos <= v@.len(),
    ensures
        match r {
            Ok(segs) => spec_segments(v@, pos as int) == Ok::<_, ParseRectError>(
                segs_view(segs@),
            ),
            Err(e) => spec_segments(v@, pos as int) == Err::<Seq<(bool, Seq<char>)>, _>(e),
        },
    decreases v@.len() - pos,
{
    if pos >= v.len() {
        let segs: Vec<Segment> = Vec::new();
        assert(segs_view(segs@) =~= Seq::<(bool, Seq<char>)>::empty());
        return Ok(segs);
    }
    let sgn = v[pos];
    if sgn != '+' && sgn != '-' {
        return Err(ParseRectError::InvalidSign(sgn));
    }
    let stop = find_sign_at(v, pos + 1);
    proof {
        lemma_find_sign(v@, pos as int + 1);
    }
    let ghost part = v@.subrange(pos as int + 1, stop as int);
    if stop == pos + 1 || v[stop - 1] != '%' {
        proof {
            if stop > pos + 1 {
                assert(part.last() == v@[stop as int - 1]);
            }
        }
        return Err(ParseRectError::MissingPercentage);
    }
    proof {
        assert(part.last() == v@[stop as int - 1]);
    }
    let digits = copy_range(v, pos + 1, stop - 1);
    proof {
        assert(part.drop_last() =~= v@.subrange(pos as int + 1, stop as int - 1));
    }
    match parse_segments(v, stop) {
        Err(e) => Err(e),
        Ok(rest) => {
            let ghost rest_view = rest@;
            let mut segs = rest;
            let seg = Segment { neg: sgn == '-', digits };
            segs.insert(0, seg);
            assert(segs_view(segs@) =~= seq![(sgn == '-', part.drop_last())] + segs_view(
                rest_view,
            ));
            Ok(segs)
        },
    }
}

/// A nudge digit run read as a fraction, as
/// [`spec_nudge_fraction`] states.
fn nudge_fraction(digits: &Vec<char>) -> (r: Option<Percentage>)
    ensures
        r == spec_nudge_fraction(digits@),
{
    if digits.len() == 3 && digits[0] == '1' && digits[1] == '0' && digits[2] == '0' {
        assert(digits@ =~= seq!['1', '0', '0']);
        return Some(Percentage { negative: false, num: 1, scale: 0 });
    }
    assert(digits@ != seq!['1', '0', '0']);
    if digits.len() > 9 {
        return None;
    }
    match crate::text::parse_digits_range(digits, 0, digits.len(), NUM_MAX) {
        Some(num) => {
            proof {
                assert(digits@.subrange(0, digits@.len() as int) =~= digits@);
            }
            Some(Percentage { negative: false, num, scale: digits.len() as u32 })
        },
        None => {
            proof {
                assert(digits@.subrange(0, digits@.len() as int) =~= digits@);
                if all_digits(digits@) {
                    lemma_digits_val_upper(digits@);
                    lemma_pow10_le(digits@.len(), 9);
                    lemma_pow10_bounds(9);
                }
            }
            None
        },
    }
}

/// The nudge suffixes of `v` from `pos` on, read as the x-axis and
/// y-axis nudges, as [`spec_parse_nudges`] states.
fn parse_nudges(v: &Vec<char>, pos: usize) -> (r: Result<
    (Option<Nudge>, Option<Nudge>),
    ParseRectError,
>)
    requires
        pos <= v@.len(),
    ensures
        r == spec_parse_nudges(v@, pos as int),
{
    let segs = match parse_segments(v, pos) {
        Ok(segs) => segs,
        Err(e) => {
            return Err(e);
        },
    };
    if segs.len() > 2 {
        return Err(ParseRectError::InvalidFormat);
    }
    if segs.len() == 0 {
        return Ok((None, None));
    }
    let by0 = match nudge_fraction(&segs[0].digits) {
        Some(by0) => by0,
        None => {
            return Err(ParseRectError::PercentageParseError(ParsePercentageError::ParseFloatError));
        },
    };
    let xn = Some(Nudge { by: by0, is_negative: segs[0].neg });
    if segs.len() == 1 {
        return Ok((xn, None));
    }
    let by1 = match nudge_fraction(&segs[1].digits) {
        Some(by1) => by1,
        None => {
            return Err(ParseRectError::PercentageParseError(ParsePercentageError::ParseFloatError));
        },
    };
    Ok((xn, Some(Nudge { by: by1, is_negative: segs[1].neg })))
}

/// The character may appear in the leading length token of the parse
/// tail: a digit or a point.
fn is_numeric_char(c: char) -> (r: bool)
    ensures
        r == (crate::text::is_digit(c) || c == '.'),
{
    ('0' <= c && c <= '9') || c == '.'
}

/// The token read as a plain decimal number, as
/// [`spec_parse_decimal`] states.
fn parse_decimal(tok: &Vec<char>) -> (r: Option<Percentage>)
    ensures
        r == spec_parse_decimal(tok@),
{
    let mut neg = false;
    let mut from: usize = 0;
    if tok.len() > 0 && tok[0] == '-' {
        neg = true;
        from = 1;
    } else if tok.len() > 0 && tok[0] == '+' {
        from = 1;
    }
    let body = copy_range(tok, from, tok.len());
    proof {
        if from == 1 {
            assert(body@ =~= strip_sign(tok@).1);
        } else {
            assert(body@ =~= tok@);
        }
        assert((neg, body@) == strip_sign(tok@));
    }
    let dot = crate::text::find_char_at(&body, 0, '.');
    proof {
        crate::text::lemma_find_at(body@, 0, '.');
    }
    if dot == body.len() {
        match crate::text::parse_digits_range(&body, 0, body.len(), NUM_MAX) {
            Some(num) if body.len() > 0 => {
                proof {
                    assert(body@.subrange(0, body@.len() as int) =~= body@);
                }
                Some(Percentage { negative: neg, num, scale: 0 })
            },
            _ => {
                proof {
                    assert(body@.subrange(0, body@.len() as int) =~= body@);
                }
                None
            },
        }
    } else {
        let ghost ip = body@.subrange(0, dot as int);
        let ghost fp = body@.subrange(dot as int + 1, body@.len() as int);
        let fplen = body.len() - dot - 1;
        if body.len() == 1 {
            // the token is a lone point
            return None;
        }
        if fplen > 9 {
            proof {
                if all_digits(ip) && all_digits(fp) {
                    lemma_digits_val_nonneg(ip);
                    lemma_digits_val_nonneg(fp);
                    lemma_pow10_pos(fp.len());
                    assert(digits_val(ip) * pow10(fp.len()) >= 0) by (nonlinear_arith)
                        requires
                            digits_val(ip) >= 0,
                            pow10(fp.len()) >= 1,
                    ;
                }
            }
            return None;
        }
        let ip_val = match crate::text::parse_digits_range(&body, 0, dot, NUM_MAX) {
            Some(val) => val,
            None => {
                proof {
                    if all_digits(ip) && all_digits(fp) {
                        lemma_decimal_parts_bound(ip, fp);
                    }
                }
                return None;
            },
        };
        let fp_val = match crate::text::parse_digits_range(&body, dot + 1, body.len(), NUM_MAX) {
            Some(val) => val,
            None => {
                proof {
                    if all_digits(ip) && all_digits(fp) {
                        lemma_decimal_parts_bound(ip, fp);
                    }
                }
                return None;
            },
        };
        let p = pow10_exec(fplen as u32);
        proof {
            if all_digits(ip) {
                lemma_digits_val_nonneg(ip);
            }
            if all_digits(fp) {
                lemma_digits_val_nonneg(fp);
            }
            assert(ip_val * p <= 5_000_000_000_000_000_000) by (nonlinear_arith)
                requires
                    0 <= ip_val <= NUM_MAX,
                    0 <= p <= 1_000_000_000,
            ;
        }
        let num = ip_val * p + fp_val;
        if num > NUM_MAX {
            return None;
        }
        Some(Percentage { negative: neg, num, scale: fplen as u32 })
    }
}

/// When either part of a decimal token exceeds the mantissa cap, the
/// whole mantissa does too.
proof fn lemma_decimal_parts_bound(ip: Seq<char>, fp: Seq<char>)
    requires
        all_digits(ip),
        all_digits(fp),
    ensures
        digits_val(ip) * pow10(fp.len()) + digits_val(fp) >= digits_val(ip),
        digits_val(ip) * pow10(fp.len()) + digits_val(fp) >= digits_val(fp),
{
    lemma_digits_val_nonneg(ip);
    lemma_digits_val_nonneg(fp);
    lemma_pow10_pos(fp.len());
    assert(digits_val(ip) * pow10(fp.len()) >= digits_val(ip)) by (nonlinear_arith)
        requires
            digits_val(ip) >= 0,
            pow10(fp.len()) >= 1,
    ;
}

/// The token read as a length, as [`spec_parse_length`] states: an
/// unsigned integer wins the absolute interpretation; only then is the
/// decimal fallback tried.
fn parse_length_tok(tok: &Vec<char>) -> (r: Result<Length, ParseLengthError>)
    ensures
        r == spec_parse_length(tok@),
{
    let start: usize = if tok.len() > 0 && tok[0] == '+' {
        1
    } else {
        0
    };
    proof {
        if start == 1 {
            assert(uint_body(tok@) =~= tok@.subrange(1, tok@.len() as int));
        } else {
            assert(uint_body(tok@) =~= tok@);
            assert(tok@.subrange(0, tok@.len() as int) =~= tok@);
        }
    }
    match crate::text::parse_u32_range(tok, start, tok.len()) {
        Some(n) => Ok(Length::Absolute(n)),
        None => match parse_decimal(tok) {
            Some(p) => Ok(Length::Relative(p)),
            None => Err(
                ParseLengthError::ParsePercentageError(ParsePercentageError::ParseFloatError),
            ),
        },
    }
}

/// A parsed length keeps its mantissa and scale caps.
proof fn lemma_parse_length_wf(t: Seq<char>)
    ensures
        spec_parse_length(t) matches Ok(l) ==> l.wf(),
{
    if !valid_uint(t) {
        let (neg, body) = strip_sign(t);
        let dot = crate::text::find_at(body, 0, '.');
        if dot >= body.len() {
            if body.len() > 0 && all_digits(body) && digits_val(body) <= NUM_MAX {
                lemma_digits_val_nonneg(body);
            }
        } else {
            let ip = body.subrange(0, dot);
            let fp = body.subrange(dot + 1, body.len() as int);
            if all_digits(ip) && all_digits(fp) {
                lemma_decimal_parts_bound(ip, fp);
                lemma_digits_val_nonneg(fp);
            }
        }
    }
}

/// A parsed nudge fraction keeps its mantissa and scale caps.
proof fn lemma_nudge_wf(d: Seq<char>)
    ensures
        spec_nudge_fraction(d) matches Some(p) ==> p.wf(),
{
    if d != seq!['1', '0', '0'] && all_digits(d) && d.len() <= MAX_SCALE as int {
        lemma_digits_val_nonneg(d);
        lemma_digits_val_upper(d);
        lemma_pow10_le(d.len(), 9);
        lemma_pow10_bounds(9);
    }
}

/// Every parsed lazy rectangle keeps its mantissa and scale caps, so
/// it can be resolved against any bounds.
pub proof fn lemma_parse_rect_wf(s: Seq<char>)
    ensures
        spec_parse_rect(s) matches Ok(lr) ==> lr.wf(),
{
    if s == "full"@ {
    } else {
        let ix = crate::text::find_at(s, 0, 'x');
        if ix < s.len() {
            let w_tok = s.subrange(0, ix);
            let rest1 = s.subrange(ix + 1, s.len() as int);
            let ih = crate::text::find_at(rest1, 0, '+');
            if ih < rest1.len() {
                let h_tok = rest1.subrange(0, ih);
                let rest2 = rest1.subrange(ih + 1, rest1.len() as int);
                let ixc = crate::text::find_at(rest2, 0, '+');
                if ixc < rest2.len() {
                    let x_tok = rest2.subrange(0, ixc);
                    let tail = rest2.subrange(ixc + 1, rest2.len() as int);
                    let ylen = scan_y_end(tail, 0);
                    let y_tok = tail.subrange(0, ylen);
                    lemma_parse_length_wf(w_tok);
                    lemma_parse_length_wf(h_tok);
                    lemma_parse_length_wf(x_tok);
                    lemma_parse_length_wf(y_tok);
                    match spec_segments(tail, ylen) {
                        Err(_) => {},
                        Ok(segs) => {
                            if segs.len() >= 1 {
                                lemma_nudge_wf(segs[0].1);
                            }
                            if segs.len() >= 2 {
                                lemma_nudge_wf(segs[1].1);
                            }
                        },
                    }
                }
            }
        }
    }
}

impl LazyRectangle {
    /// Parse the textual form: the literal `full`, or
    /// `W x H + X + Y` with up to two nudge suffixes `("+"|"-")digits"%"`
    /// after the digit run of `Y`. The first nudge applies to the
    /// x-axis, the second to the y-axis.
    pub fn from_str(s: &str) -> (r: Result<LazyRectangle, ParseRectError>)
        ensures
            r == spec_parse_rect(s@),
            r matches Ok(lr) ==> lr.wf(),
    {
        proof {
            lemma_parse_rect_wf(s@);
        }
        let v = str_chars(s);
        proof {
            reveal_strlit("full");
        }
        if v.len() == 4 && v[0] == 'f' && v[1] == 'u' && v[2] == 'l' && v[3] == 'l' {
            assert(s@ =~= "full"@);
            return Ok(LazyRectangle::full());
        }
        assert(s@ != "full"@) by {
            if s@ == "full"@ {
                assert(v@[0] == 'f' && v@[1] == 'u' && v@[2] == 'l' && v@[3] == 'l');
            }
        }
        let ix = crate::text::find_char_at(&v, 0, 'x');
        proof {
            crate::text::lemma_find_at(v@, 0, 'x');
        }
        if ix == v.len() {
            return Err(ParseRectError::InvalidFormat);
        }
        let w_tok = copy_range(&v, 0, ix);
        let rest1 = copy_range(&v, ix + 1, v.len());
        let ih = crate::text::find_char_at(&rest1, 0, '+');
        proof {
            crate::text::lemma_find_at(rest1@, 0, '+');
        }
        if ih == rest1.len() {
            return Err(ParseRectError::InvalidFormat);
        }
        let h_tok = copy_range(&rest1, 0, ih);
        let rest2 = copy_range(&rest1, ih + 1, rest1.len());
        let ixc = crate::text::find_char_at(&rest2, 0, '+');
        proof {
            crate::text::lemma_find_at(rest2@, 0, '+');
        }
        if ixc == rest2.len() {
            return Err(ParseRectError::InvalidFormat);
        }
        let x_tok = copy_range(&rest2, 0, ixc);
        let tail = copy_range(&rest2, ixc + 1, rest2.len());
        let mut ylen: usize = 0;
        while ylen < tail.len() && is_numeric_char(tail[ylen])
            invariant
                0 <= ylen <= tail@.len(),
                forall|j: int|
                    0 <= j < ylen ==> (crate::text::is_digit(#[trigger] tail@[j]) || tail@[j]
                        == '.'),
            decreases tail@.len() - ylen,
        {
            ylen = ylen + 1;
        }
        proof {
            lemma_scan_y_end(tail@, 0);
        }
        let y_tok = copy_range(&tail, 0, ylen);
        let nudges = match parse_nudges(&tail, ylen) {
            Ok(nudges) => nudges,
            Err(e) => {
                return Err(e);
            },
        };
        let xl = match parse_length_tok(&x_tok) {
            Ok(xl) => xl,
            Err(e) => {
                return Err(ParseRectError::ParseLengthError(e));
            },
        };
        let yl = match parse_length_tok(&y_tok) {
            Ok(yl) => yl,
            Err(e) => {
                return Err(ParseRectError::ParseLengthError(e));
            },
        };
        let wl = match parse_length_tok(&w_tok) {
            Ok(wl) => wl,
            Err(e) => {
                return Err(ParseRectError::ParseLengthError(e));
            },
        };
        let hl = match parse_length_tok(&h_tok) {
            Ok(hl) => hl,
            Err(e) => {
                return Err(ParseRectError::ParseLengthError(e));
            },
        };
        Ok(
            LazyRectangle {
                x: Coord { original_position: xl, nudge: nudges.0 },
                y: Coord { original_position: yl, nudge: nudges.1 },
                width: wl,
                height: hl,
            },
        )
    }
}

/// `v` limited to the `u32` range.
pub open spec fn clamp_u32(v: int) -> int {
    if v < 0 {
        0
    } else if v > u32::MAX {
        u32::MAX as int
    } else {
        v
    }
}

/// The textual form of a rectangle, `WxH+X+Y`, each value limited to
/// the `u32` range.
pub open spec fn spec_rect_string(r: RectV) -> Seq<char> {
    dec_digits(clamp_u32(r.w) as nat) + seq!['x'] + dec_digits(clamp_u32(r.h) as nat) + seq!['+']
        + dec_digits(clamp_u32(r.x) as nat) + seq!['+'] + dec_digits(clamp_u32(r.y) as nat)
}

/// `v` limited to the `u32` range.
fn clamp_u32_exec(v: i64) -> (r: u64)
    ensures
        r as int == clamp_u32(v as int),
{
    if v < 0 {
        0
    } else if v > u32::MAX as i64 {
        u32::MAX as u64
    } else {
        v as u64
    }
}

impl Rectangle {
    /// The textual form `WxH+X+Y` of this rectangle, each value limited
    /// to the `u32` range; the inverse of parsing for integer,
    /// non-nudged, non-relative regions.
    pub fn as_str(&self) -> (r: String)
        ensures
            r@ == spec_rect_string(self@),
    {
        let mut out: Vec<char> = Vec::new();
        push_dec_digits(clamp_u32_exec(self.width), &mut out);
        out.push('x');
        push_dec_digits(clamp_u32_exec(self.height), &mut out);
        out.push('+');
        push_dec_digits(clamp_u32_exec(self.x), &mut out);
        out.push('+');
        push_dec_digits(clamp_u32_exec(self.y), &mut out);
        assert(out@ =~= spec_rect_string(self@));
        chars_to_string(&out)
    }
}

/// The first occurrence of a non-digit `c` right after a digit run is
/// exactly at the end of the run.
proof fn lemma_find_after_digits(d: Seq<char>, c: char, rest: Seq<char>)
    requires
        all_digits(d),
        !crate::text::is_digit(c),
    ensures
        crate::text::find_at(d + seq![c] + rest, 0, c) == d.len(),
{
    let s = d + seq![c] + rest;
    crate::text::lemma_find_at(s, 0, c);
    assert(s[d.len() as int] == c);
    let f = crate::text::find_at(s, 0, c);
    if f < d.len() {
        assert(s[f] == d[f]);
        assert(crate::text::is_digit(d[f]));
    }
}

/// Round-trip law of the textual form: an integer, non-nudged,
/// non-relative region string parses back to itself, resolves to
/// exactly its own values against origin-anchored bounds it fits in,
/// and formats back to the same string.
pub proof fn lemma_rect_string_round_trip(w: u32, h: u32, x: u32, y: u32, b: RectV)
    requires
        b.x == 0,
        b.y == 0,
        0 <= b.w <= MAX_COORD as int,
        0 <= b.h <= MAX_COORD as int,
        x + w <= b.w,
        y + h <= b.h,
    ensures
        ({
            let r0 = RectV { x: x as int, y: y as int, w: w as int, h: h as int };
            let s = spec_rect_string(r0);
            &&& spec_parse_rect(s) matches Ok(lr) && lr.spec_init(b) == r0
            &&& spec_rect_string(r0) == s
        }),
{
    let r0 = RectV { x: x as int, y: y as int, w: w as int, h: h as int };
    let s = spec_rect_string(r0);
    let dw = dec_digits(w as nat);
    let dh = dec_digits(h as nat);
    let dx = dec_digits(x as nat);
    let dy = dec_digits(y as nat);
    lemma_dec_digits(w as nat);
    lemma_dec_digits(h as nat);
    lemma_dec_digits(x as nat);
    lemma_dec_digits(y as nat);
    assert(s =~= dw + seq!['x'] + (dh + seq!['+'] + (dx + seq!['+'] + dy)));

    // the string is not the literal `full`: its first character is a digit
    reveal_strlit("full");
    assert("full"@.len() == 4);
    if s == "full"@ {
        assert(s[0] == 'f');
        assert(s[0] == dw[0]);
        assert(crate::text::is_digit(dw[0]));
    }

    // the first `x` splits off the width token
    lemma_find_after_digits(dw, 'x', dh + seq!['+'] + (dx + seq!['+'] + dy));
    let ix = crate::text::find_at(s, 0, 'x');
    assert(ix == dw.len());
    let w_tok = s.subrange(0, ix);
    let rest1 = s.subrange(ix + 1, s.len() as int);
    assert(w_tok =~= dw);
    assert(rest1 =~= dh + seq!['+'] + (dx + seq!['+'] + dy));

    // the first `+` of the rest splits off the height token
    lemma_find_after_digits(dh, '+', dx + seq!['+'] + dy);
    assert(rest1 =~= dh + seq!['+'] + (dx + seq!['+'] + dy));
    let ih = crate::text::find_at(rest1, 0, '+');
    assert(ih == dh.len());
    let h_tok = rest1.subrange(0, ih);
    let rest2 = rest1.subrange(ih + 1, rest1.len() as int);
    assert(h_tok =~= dh);
    assert(rest2 =~= dx + seq!['+'] + dy);

    // the next `+` splits off the x token, leaving the y digits
    lemma_find_after_digits(dx, '+', dy);
    let ixc = crate::text::find_at(rest2, 0, '+');
    assert(ixc == dx.len());
    let x_tok = rest2.subrange(0, ixc);
    let tail = rest2.subrange(ixc + 1, rest2.len() as int);
    assert(x_tok =~= dx);
    assert(tail =~= dy);

    // the whole tail is digits: no nudges
    lemma_scan_y_end(tail, 0);
    let ylen = scan_y_end(tail, 0);
    assert(ylen == tail.len()) by {
        if ylen < tail.len() {
            assert(crate::text::is_digit(tail[ylen]));
        }
    }
    let y_tok = tail.subrange(0, ylen);
    assert(y_tok =~= dy);
    assert(spec_parse_nudges(tail, ylen) == Ok::<_, ParseRectError>(
        (None::<Nudge>, None::<Nudge>),
    ));

    // each token starts with a digit, so the optional sign is absent and
    // each reads back its own value
    assert(uint_body(dw) == dw && uint_body(dh) == dh && uint_body(dx) == dx && uint_body(dy)
        == dy);
    assert(valid_uint(dw) && digits_val(dw) == w);
    assert(valid_uint(dh) && digits_val(dh) == h);
    assert(valid_uint(dx) && digits_val(dx) == x);
    assert(valid_uint(dy) && digits_val(dy) == y);
    let lr = LazyRectangle {
        x: Coord { original_position: Length::Absolute(x), nudge: None },
        y: Coord { original_position: Length::Absolute(y), nudge: None },
        width: Length::Absolute(w),
        height: Length::Absolute(h),
    };
    assert(spec_parse_rect(s) == Ok::<_, ParseRectError>(lr));

    // resolving against the bounds changes nothing: the region fits
    assert(lr.spec_init(b) =~= r0);
}

/// Resolving `full` against bounds anchored at the origin with
/// in-range, non-negative extents gives exactly the bounds.
pub proof fn lemma_full_init_is_bounds(b: RectV)
    requires
        b.x == 0,
        b.y == 0,
        0 <= b.w <= MAX_COORD as int,
        0 <= b.h <= MAX_COORD as int,
    ensures
        LazyRectangle::spec_full().spec_init(b) == b,
{
    let lr = LazyRectangle::spec_full();
    assert(pow10(0) == 1);
    assert(resolve_val(lr.width, b.w) == b.w) by {
        assert(1 * b.w == b.w) by (nonlinear_arith);
        assert(b.w / 1 == b.w);
    }
    assert(resolve_val(lr.height, b.h) == b.h) by {
        assert(1 * b.h == b.h) by (nonlinear_arith);
        assert(b.h / 1 == b.h);
    }
    assert(lr.spec_init(b) =~= b);
}

} // verus!
