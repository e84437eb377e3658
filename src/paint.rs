//! Style values: colors, paints, fills and strokes, and the small enums of the model.
use crate::num::{
    is_below_one, is_full_opacity, is_fuzzy_zero_value, opacity_from_u8, opacity_of_u8,
    to_positive, value_from_u8, value_lt, value_of_u8, values_approx_eq, FUZZY_ULPS,
};
use strict_num::{FiniteF64, NonZeroPositiveF64, NormalizedF64};
use vstd::prelude::*;

verus! {

/// A number that is not zero, up to rounding.
#[derive(Clone, Copy, Debug)]
pub struct NonZeroF64(FiniteF64);

impl View for NonZeroF64 {
    type V = FiniteF64;

    closed spec fn view(&self) -> FiniteF64 {
        self.0
    }
}

impl NonZeroF64 {
    /// `n`, unless it is zero up to rounding.
    pub fn new(n: FiniteF64) -> (r: Option<NonZeroF64>)
        ensures
            r.is_some() == !is_fuzzy_zero_value(n),
            match r {
                Some(v) => v@ == n,
                None => true,
            },
    {
        if values_approx_eq(n, value_from_u8(0), FUZZY_ULPS) {
            None
        } else {
            Some(NonZeroF64(n))
        }
    }

    /// The number.
    pub fn value(&self) -> (r: FiniteF64)
        ensures
            r == self@,
    {
        self.0
    }
}

/// An element's coordinate units.
#[derive(Clone, Copy, PartialEq, Eq, Debug, Structural)]
pub enum Units {
    UserSpaceOnUse,
    ObjectBoundingBox,
}

/// The `visibility` property.
#[derive(Clone, Copy, PartialEq, Eq, Debug, Structural)]
pub enum Visibility {
    Visible,
    Hidden,
    Collapse,
}

impl Default for Visibility {
    fn default() -> (r: Self)
        ensures
            r == Visibility::Visible,
    {
        Visibility::Visible
    }
}

/// The `shape-rendering` property.
#[derive(Clone, Copy, PartialEq, Eq, Debug, Structural)]
pub enum ShapeRendering {
    OptimizeSpeed,
    CrispEdges,
    GeometricPrecision,
}

impl ShapeRendering {
    /// Whether shapes are drawn with anti-aliasing.
    pub fn use_shape_antialiasing(self) -> (r: bool)
        ensures
            r == (self == ShapeRendering::GeometricPrecision),
    {
        match self {
            ShapeRendering::OptimizeSpeed => false,
            ShapeRendering::CrispEdges => false,
            ShapeRendering::GeometricPrecision => true,
        }
    }
}

impl Default for ShapeRendering {
    fn default() -> (r: Self)
        ensures
            r == ShapeRendering::GeometricPrecision,
    {
        ShapeRendering::GeometricPrecision
    }
}

/// The `text-rendering` property.
#[derive(Clone, Copy, PartialEq, Eq, Debug, Structural)]
pub enum TextRendering {
    OptimizeSpeed,
    OptimizeLegibility,
    GeometricPrecision,
}

impl Default for TextRendering {
    fn default() -> (r: Self)
        ensures
            r == TextRendering::OptimizeLegibility,
    {
        TextRendering::OptimizeLegibility
    }
}

/// The `image-rendering` property.
#[derive(Clone, Copy, PartialEq, Eq, Debug, Structural)]
pub enum ImageRendering {
    OptimizeQuality,
    OptimizeSpeed,
}

impl Default for ImageRendering {
    fn default() -> (r: Self)
        ensures
            r == ImageRendering::OptimizeQuality,
    {
        ImageRendering::OptimizeQuality
    }
}

/// The `mix-blend-mode` property.
#[derive(Clone, Copy, PartialEq, Eq, Debug, Structural)]
pub enum BlendMode {
    Normal,
    Multiply,
    Screen,
    Overlay,
    Darken,
    Lighten,
    ColorDodge,
    ColorBurn,
    HardLight,
    SoftLight,
    Difference,
    Exclusion,
    Hue,
    Saturation,
    Color,
    Luminosity,
}

impl Default for BlendMode {
    fn default() -> (r: Self)
        ensures
            r == BlendMode::Normal,
    {
        BlendMode::Normal
    }
}

/// The `spreadMethod` of a gradient.
#[derive(Clone, Copy, PartialEq, Eq, Debug, Structural)]
pub enum SpreadMethod {
    Pad,
    Reflect,
    Repeat,
}

impl Default for SpreadMethod {
    fn default() -> (r: Self)
        ensures
            r == SpreadMethod::Pad,
    {
        SpreadMethod::Pad
    }
}

/// The `stroke-linecap` property.
#[derive(Clone, Copy, PartialEq, Eq, Debug, Structural)]
pub enum LineCap {
    Butt,
    Round,
    Square,
}

impl Default for LineCap {
    fn default() -> (r: Self)
        ensures
            r == LineCap::Butt,
    {
        LineCap::Butt
    }
}

/// The `stroke-linejoin` property.
#[derive(Clone, Copy, PartialEq, Eq, Debug, Structural)]
pub enum LineJoin {
    Miter,
    Round,
    Bevel,
}

impl Default for LineJoin {
    fn default() -> (r: Self)
        ensures
            r == LineJoin::Miter,
    {
        LineJoin::Miter
    }
}

/// The `fill-rule` property.
#[derive(Clone, Copy, PartialEq, Eq, Debug, Structural)]
pub enum FillRule {
    NonZero,
    EvenOdd,
}

impl Default for FillRule {
    fn default() -> (r: Self)
        ensures
            r == FillRule::NonZero,
    {
        FillRule::NonZero
    }
}

/// The `paint-order` property, reduced to its fill and stroke variants.
#[derive(Clone, Copy, PartialEq, Eq, Debug, Structural)]
pub enum PaintOrder {
    FillAndStroke,
    StrokeAndFill,
}

impl Default for PaintOrder {
    fn default() -> (r: Self)
        ensures
            r == PaintOrder::FillAndStroke,
    {
        PaintOrder::FillAndStroke
    }
}

/// An 8-bit RGB color; its alpha is carried apart, as an opacity.
#[derive(Clone, Copy, PartialEq, Eq, Debug, Structural)]
pub struct Color {
    pub red: u8,
    pub green: u8,
    pub blue: u8,
}

impl Color {
    /// A color from its three channels.
    pub fn new_rgb(red: u8, green: u8, blue: u8) -> (r: Color)
        ensures
            r == (Color { red, green, blue }),
    {
        Color { red, green, blue }
    }

    /// Opaque black.
    pub fn black() -> (r: Color)
        ensures
            r == (Color { red: 0, green: 0, blue: 0 }),
    {
        Color::new_rgb(0, 0, 0)
    }

    /// White.
    pub fn white() -> (r: Color)
        ensures
            r == (Color { red: 255, green: 255, blue: 255 }),
    {
        Color::new_rgb(255, 255, 255)
    }
}

/// A shared paint server as a paint refers to it: its place in the tree's
/// table of that kind, and the coordinate units it was built with.
///
/// Two references are the same server exactly when their places are equal.
#[derive(Clone, Copy, PartialEq, Eq, Debug, Structural)]
pub struct ServerRef {
    pub index: usize,
    pub units: Units,
}

/// What a shape is painted with.
#[derive(Clone, Copy, PartialEq, Eq, Debug, Structural)]
pub enum Paint {
    Color(Color),
    LinearGradient(ServerRef),
    RadialGradient(ServerRef),
    Pattern(ServerRef),
}

/// Flat black paint.
pub open spec fn black_paint() -> Paint {
    Paint::Color(Color { red: 0, green: 0, blue: 0 })
}

/// The units of a paint: none for a flat color.
pub open spec fn paint_units(p: Paint) -> Option<Units> {
    match p {
        Paint::Color(_) => None,
        Paint::LinearGradient(s) => Some(s.units),
        Paint::RadialGradient(s) => Some(s.units),
        Paint::Pattern(s) => Some(s.units),
    }
}

impl Paint {
    /// The paint server's units, or `None` for a flat color.
    pub fn units(&self) -> (r: Option<Units>)
        ensures
            r == paint_units(*self),
    {
        match self {
            Paint::Color(_) => None,
            Paint::LinearGradient(s) => Some(s.units),
            Paint::RadialGradient(s) => Some(s.units),
            Paint::Pattern(s) => Some(s.units),
        }
    }
}

/// A fill style.
#[derive(Clone, Debug)]
pub struct Fill {
    pub paint: Paint,
    pub opacity: NormalizedF64,
    pub rule: FillRule,
}

impl Fill {
    /// A fill with `paint`, full opacity and the default rule.
    pub fn from_paint(paint: Paint) -> (r: Fill)
        ensures
            r.paint == paint,
            r.opacity == opacity_of_u8(255),
            is_full_opacity(r.opacity),
            r.rule == FillRule::NonZero,
    {
        Fill { paint, opacity: opacity_from_u8(255), rule: FillRule::default() }
    }
}

impl Default for Fill {
    fn default() -> (r: Fill)
        ensures
            r.paint == black_paint(),
            r.opacity == opacity_of_u8(255),
            is_full_opacity(r.opacity),
            r.rule == FillRule::NonZero,
    {
        Fill::from_paint(Paint::Color(Color::black()))
    }
}

/// A `stroke-miterlimit` that is never below one.
#[derive(Clone, Copy, Debug)]
pub struct StrokeMiterlimit(FiniteF64);

impl View for StrokeMiterlimit {
    type V = FiniteF64;

    closed spec fn view(&self) -> FiniteF64 {
        self.0
    }
}

impl StrokeMiterlimit {
    /// The value as stored: `n`, or one where `n` is below one.
    pub open spec fn spec_clamped(n: FiniteF64) -> FiniteF64 {
        if is_below_one(n) {
            value_of_u8(1)
        } else {
            n
        }
    }

    /// A miter limit from `n`, raised to one where it is lower.
    pub fn new(n: FiniteF64) -> (r: StrokeMiterlimit)
        ensures
            r@ == Self::spec_clamped(n),
            !is_below_one(r@),
    {
        if value_lt(n, value_from_u8(1)) {
            StrokeMiterlimit(value_from_u8(1))
        } else {
            StrokeMiterlimit(n)
        }
    }

    /// The stored value.
    pub fn get(&self) -> (r: FiniteF64)
        ensures
            r == self@,
    {
        self.0
    }
}

impl Default for StrokeMiterlimit {
    fn default() -> (r: StrokeMiterlimit)
        ensures
            r@ == Self::spec_clamped(value_of_u8(4)),
    {
        StrokeMiterlimit::new(value_from_u8(4))
    }
}

/// A stroke style.
#[derive(Clone, Debug)]
pub struct Stroke {
    pub paint: Paint,
    pub dasharray: Option<Vec<FiniteF64>>,
    pub dashoffset: FiniteF64,
    pub miterlimit: StrokeMiterlimit,
    pub opacity: NormalizedF64,
    pub width: NonZeroPositiveF64,
    pub linecap: LineCap,
    pub linejoin: LineJoin,
}

impl Default for Stroke {
    /// A solid black stroke of width one; the property's own default is no stroke.
    fn default() -> (r: Stroke)
        ensures
            r.paint == black_paint(),
            r.dasharray.is_none(),
            r.dashoffset == value_of_u8(0),
            r.miterlimit@ == StrokeMiterlimit::spec_clamped(value_of_u8(4)),
            r.opacity == opacity_of_u8(255),
            Some(r.width) == crate::num::positive_of(value_of_u8(1)),
            r.linecap == LineCap::Butt,
            r.linejoin == LineJoin::Miter,
    {
        let width = to_positive(value_from_u8(1));
        Stroke {
            paint: Paint::Color(Color::black()),
            dasharray: None,
            dashoffset: value_from_u8(0),
            miterlimit: StrokeMiterlimit::default(),
            opacity: opacity_from_u8(255),
            width: width.unwrap(),
            linecap: LineCap::default(),
            linejoin: LineJoin::default(),
        }
    }
}

} // verus!
