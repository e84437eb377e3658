//! Fill and stroke resolution: inheritance, paint interpretation with its
//! fallbacks, opacity composition and dash-array normalization.
use crate::num::{
    add_values, is_fuzzy_zero_value, is_negative_value,
    mul_opacity, opacity_from_u8, same_opacity, opacity_of_u8, opacity_product, positive_of, to_positive,
    value_from_u8, value_is_negative, value_of_u8, value_sum, values_approx_eq, FUZZY_ULPS,
};
use crate::paint::{
    black_paint, paint_units, Color, Fill, FillRule, LineCap, LineJoin, Paint, Stroke,
    StrokeMiterlimit, Units,
};
use crate::source::{declarer, first_with_id, AId, Document, ElementKind, SourceNode, SvgColor};
use strict_num::{FiniteF64, NonZeroPositiveF64, NormalizedF64};
use vstd::prelude::*;

verus! {

/// What a paint reference falls back to when its target cannot be used.
#[derive(Clone, Copy, PartialEq, Eq, Debug, Structural)]
pub enum PaintFallback {
    NoPaint,
    CurrentColor,
    Color(SvgColor),
}

/// A paint value as written in a `fill` or `stroke` attribute.
#[derive(Clone, Debug)]
pub enum PaintValue {
    NoPaint,
    Inherit,
    CurrentColor,
    Color(SvgColor),
    FuncIri(String, Option<PaintFallback>),
}

/// What the paint-server resolver made of a paint-server element.
#[derive(Clone, Copy, Debug)]
pub enum ServerOrColor {
    Server(Paint),
    Color { color: Color, opacity: NormalizedF64 },
}

/// The ambient state of a resolution.
#[derive(Clone, Copy, PartialEq, Eq, Debug, Structural)]
pub struct State {
    /// Whether the element being resolved is the content of a clip path.
    pub in_clip_path: bool,
}

/// The paint value that svgtypes reads from `text`, or `None` where it fails.
pub uninterp spec fn parsed_paint(text: Seq<char>) -> Option<PaintValue>;

/// Relies on `svgtypes::Paint::from_str`, its result moved into this library's values.
#[verifier::external_body]
fn parse_paint(text: &str) -> (r: Option<PaintValue>)
    ensures
        r == parsed_paint(text@),
{
    let col = |c: svgtypes::Color| SvgColor { red: c.red, green: c.green, blue: c.blue, alpha: c.alpha };
    match svgtypes::Paint::from_str(text).ok()? {
        svgtypes::Paint::None => Some(PaintValue::NoPaint),
        svgtypes::Paint::Inherit => Some(PaintValue::Inherit),
        svgtypes::Paint::CurrentColor => Some(PaintValue::CurrentColor),
        svgtypes::Paint::Color(c) => Some(PaintValue::Color(col(c))),
        svgtypes::Paint::FuncIRI(id, fb) => Some(PaintValue::FuncIri(id.to_owned(), fb.map(|f| match f {
            svgtypes::PaintFallback::None => PaintFallback::NoPaint,
            svgtypes::PaintFallback::CurrentColor => PaintFallback::CurrentColor,
            svgtypes::PaintFallback::Color(c) => PaintFallback::Color(col(c)),
        }))),
    }
}

/// Whether `s` holds exactly the characters of the literal `lit`.
fn text_is(s: &String, lit: &str) -> (r: bool)
    ensures
        r == (s@ == lit@),
{
    *s == lit.to_owned()
}

impl LineCap {
    /// The keyword's meaning.
    pub open spec fn spec_parse(s: Seq<char>) -> Option<LineCap> {
        if s == "butt"@ {
            Some(LineCap::Butt)
        } else if s == "round"@ {
            Some(LineCap::Round)
        } else if s == "square"@ {
            Some(LineCap::Square)
        } else {
            None
        }
    }

    /// Reads a `stroke-linecap` keyword.
    pub fn parse(value: &String) -> (r: Option<LineCap>)
        ensures
            r == Self::spec_parse(value@),
    {
        if text_is(value, "butt") {
            Some(LineCap::Butt)
        } else if text_is(value, "round") {
            Some(LineCap::Round)
        } else if text_is(value, "square") {
            Some(LineCap::Square)
        } else {
            None
        }
    }
}

impl LineJoin {
    /// The keyword's meaning.
    pub open spec fn spec_parse(s: Seq<char>) -> Option<LineJoin> {
        if s == "miter"@ {
            Some(LineJoin::Miter)
        } else if s == "round"@ {
            Some(LineJoin::Round)
        } else if s == "bevel"@ {
            Some(LineJoin::Bevel)
        } else {
            None
        }
    }

    /// Reads a `stroke-linejoin` keyword.
    pub fn parse(value: &String) -> (r: Option<LineJoin>)
        ensures
            r == Self::spec_parse(value@),
    {
        if text_is(value, "miter") {
            Some(LineJoin::Miter)
        } else if text_is(value, "round") {
            Some(LineJoin::Round)
        } else if text_is(value, "bevel") {
            Some(LineJoin::Bevel)
        } else {
            None
        }
    }
}

impl FillRule {
    /// The keyword's meaning.
    pub open spec fn spec_parse(s: Seq<char>) -> Option<FillRule> {
        if s == "nonzero"@ {
            Some(FillRule::NonZero)
        } else if s == "evenodd"@ {
            Some(FillRule::EvenOdd)
        } else {
            None
        }
    }

    /// Reads a `fill-rule` or `clip-rule` keyword.
    pub fn parse(value: &String) -> (r: Option<FillRule>)
        ensures
            r == Self::spec_parse(value@),
    {
        if text_is(value, "nonzero") {
            Some(FillRule::NonZero)
        } else if text_is(value, "evenodd") {
            Some(FillRule::EvenOdd)
        } else {
            None
        }
    }
}

/// The RGB part of a document color.
pub open spec fn rgb_of(c: SvgColor) -> Color {
    Color { red: c.red, green: c.green, blue: c.blue }
}

/// The `color` in effect at element `i`: the nearest declared one, else black.
pub open spec fn current_color(nodes: Seq<SourceNode>, i: int) -> SvgColor {
    match declarer(nodes, i, AId::Color) {
        Some(d) => nodes[d as int].color.unwrap(),
        None => SvgColor::spec_black(),
    }
}

/// A flat color and the opacity its alpha carries.
pub open spec fn color_outcome(c: SvgColor) -> (Option<Paint>, NormalizedF64) {
    (Some(Paint::Color(rgb_of(c))), opacity_of_u8(c.alpha))
}

/// The paint a fallback clause gives, and the opacity after it (`op` where it
/// gives no color).
pub open spec fn fallback_outcome(
    nodes: Seq<SourceNode>,
    i: int,
    fallback: Option<PaintFallback>,
    op: NormalizedF64,
) -> (Option<Paint>, NormalizedF64) {
    match fallback {
        None => (None, op),
        Some(PaintFallback::NoPaint) => (None, op),
        Some(PaintFallback::CurrentColor) => color_outcome(current_color(nodes, i)),
        Some(PaintFallback::Color(c)) => color_outcome(c),
    }
}

/// What the fill or stroke in effect gets from a reference that cannot be
/// used: its fallback clause, and where none is written, fill's default of
/// opaque black and no stroke.
pub open spec fn reference_fallback(
    nodes: Seq<SourceNode>,
    i: int,
    aid: AId,
    fallback: Option<PaintFallback>,
    op: NormalizedF64,
) -> (Option<Paint>, NormalizedF64) {
    match fallback {
        None => if aid == AId::Fill {
            (Some(black_paint()), opacity_of_u8(255))
        } else {
            (None, op)
        },
        Some(_) => fallback_outcome(nodes, i, fallback, op),
    }
}

/// What a reference on element `i` to element `link` gives.
pub open spec fn link_outcome(
    nodes: Seq<SourceNode>,
    servers: Seq<Option<ServerOrColor>>,
    i: int,
    link: int,
    fallback: Option<PaintFallback>,
    has_bbox: bool,
    op: NormalizedF64,
) -> (Option<Paint>, NormalizedF64) {
    if nodes[link].kind == ElementKind::Other {
        fallback_outcome(nodes, i, fallback, op)
    } else {
        match servers[link] {
            Some(ServerOrColor::Server(p)) => if !has_bbox && paint_units(p) == Some(
                Units::ObjectBoundingBox,
            ) {
                fallback_outcome(nodes, i, fallback, op)
            } else {
                (Some(p), op)
            },
            Some(ServerOrColor::Color { color, opacity }) => (Some(Paint::Color(color)), opacity),
            None => fallback_outcome(nodes, i, fallback, op),
        }
    }
}

/// The paint a parsed paint value on element `i` gives, and the opacity
/// after it. A reference that cannot be used gives its fallback clause.
pub open spec fn value_outcome(
    nodes: Seq<SourceNode>,
    servers: Seq<Option<ServerOrColor>>,
    i: int,
    value: PaintValue,
    has_bbox: bool,
    op: NormalizedF64,
) -> (Option<Paint>, NormalizedF64) {
    match value {
        PaintValue::NoPaint => (None, op),
        PaintValue::Inherit => (None, op),
        PaintValue::CurrentColor => color_outcome(current_color(nodes, i)),
        PaintValue::Color(c) => color_outcome(c),
        PaintValue::FuncIri(id, fallback) => match first_with_id(nodes, id@) {
            None => fallback_outcome(nodes, i, fallback, op),
            Some(link) => link_outcome(nodes, servers, i, link as int, fallback, has_bbox, op),
        },
    }
}

/// Whether a reference to the element with id `id` cannot be used: no such
/// element, not a paint server, a server the resolver could not build, or a
/// server in object-bounding-box units for a shape without a box.
pub open spec fn reference_unusable(
    nodes: Seq<SourceNode>,
    servers: Seq<Option<ServerOrColor>>,
    id: Seq<char>,
    has_bbox: bool,
) -> bool {
    match first_with_id(nodes, id) {
        None => true,
        Some(link) => nodes[link as int].kind == ElementKind::Other || match servers[link as int] {
            Some(ServerOrColor::Server(p)) => !has_bbox && paint_units(p) == Some(
                Units::ObjectBoundingBox,
            ),
            Some(ServerOrColor::Color { .. }) => false,
            None => true,
        },
    }
}

/// Whether the `aid` attribute of element `i` is a reference that cannot be
/// used and has no fallback clause.
pub open spec fn bare_unusable_reference(
    nodes: Seq<SourceNode>,
    servers: Seq<Option<ServerOrColor>>,
    i: int,
    aid: AId,
    has_bbox: bool,
) -> bool {
    match text_attribute(nodes[i], aid) {
        Some(text) => match parsed_paint(text@) {
            Some(PaintValue::FuncIri(id, None)) => reference_unusable(nodes, servers, id@, has_bbox),
            _ => false,
        },
        None => false,
    }
}

/// The raw text of a paint or keyword attribute that element `n` sets itself.
pub open spec fn text_attribute(n: SourceNode, aid: AId) -> Option<String> {
    match aid {
        AId::Fill => n.fill,
        AId::Stroke => n.stroke,
        AId::ClipRule => n.clip_rule,
        AId::FillRule => n.fill_rule,
        AId::StrokeLinecap => n.stroke_linecap,
        AId::StrokeLinejoin => n.stroke_linejoin,
        _ => None,
    }
}

/// The paint that the `aid` attribute of element `i` gives, and the opacity
/// after it. Text that does not parse is black for a fill and no paint for a
/// stroke.
pub open spec fn paint_outcome(
    nodes: Seq<SourceNode>,
    servers: Seq<Option<ServerOrColor>>,
    i: int,
    aid: AId,
    has_bbox: bool,
    op: NormalizedF64,
) -> (Option<Paint>, NormalizedF64) {
    match text_attribute(nodes[i], aid) {
        None => (None, op),
        Some(text) => match parsed_paint(text@) {
            Some(value) => value_outcome(nodes, servers, i, value, has_bbox, op),
            None => if aid == AId::Fill {
                value_outcome(
                    nodes,
                    servers,
                    i,
                    PaintValue::Color(SvgColor::spec_black()),
                    has_bbox,
                    op,
                )
            } else {
                (None, op)
            },
        },
    }
}

impl SourceNode {
    /// The raw text of a paint or keyword attribute that the element sets itself.
    pub fn text_attribute(&self, aid: AId) -> (r: Option<&String>)
        ensures
            match r {
                Some(t) => text_attribute(*self, aid) == Some(*t),
                None => text_attribute(*self, aid).is_none(),
            },
    {
        match aid {
            AId::Fill => self.fill.as_ref(),
            AId::Stroke => self.stroke.as_ref(),
            AId::ClipRule => self.clip_rule.as_ref(),
            AId::FillRule => self.fill_rule.as_ref(),
            AId::StrokeLinecap => self.stroke_linecap.as_ref(),
            AId::StrokeLinejoin => self.stroke_linejoin.as_ref(),
            _ => None,
        }
    }
}

/// Splits a document color into its RGB paint and the opacity of its alpha.
fn split_alpha(c: SvgColor, opacity: &mut NormalizedF64) -> (r: Option<Paint>)
    ensures
        (r, *final(opacity)) == color_outcome(c),
{
    *opacity = opacity_from_u8(c.alpha);
    Some(Paint::Color(Color::new_rgb(c.red, c.green, c.blue)))
}

/// The `color` in effect at element `node`.
fn find_current_color(doc: &Document, node: usize) -> (r: SvgColor)
    requires
        doc.wf(),
        node < doc.nodes.len(),
    ensures
        r == current_color(doc.nodes@, node as int),
{
    match doc.find_declarer(node, AId::Color) {
        Some(d) => doc.nodes[d].color.unwrap(),
        None => SvgColor::black(),
    }
}

/// The paint of a fallback clause written on element `node`.
pub fn from_fallback(
    doc: &Document,
    node: usize,
    fallback: Option<PaintFallback>,
    opacity: &mut NormalizedF64,
) -> (r: Option<Paint>)
    requires
        doc.wf(),
        node < doc.nodes.len(),
    ensures
        (r, *final(opacity)) == fallback_outcome(doc.nodes@, node as int, fallback, *old(opacity)),
{
    match fallback {
        None => None,
        Some(PaintFallback::NoPaint) => None,
        Some(PaintFallback::CurrentColor) => {
            let c = find_current_color(doc, node);
            split_alpha(c, opacity)
        },
        Some(PaintFallback::Color(c)) => split_alpha(c, opacity),
    }
}

/// The paint that a reference on element `node` to element `link` gives.
fn resolve_link(
    doc: &Document,
    servers: &Vec<Option<ServerOrColor>>,
    node: usize,
    link: usize,
    fallback: Option<PaintFallback>,
    has_bbox: bool,
    opacity: &mut NormalizedF64,
) -> (r: Option<Paint>)
    requires
        doc.wf(),
        node < doc.nodes.len(),
        link < doc.nodes.len(),
        servers.len() == doc.nodes.len(),
    ensures
        (r, *final(opacity)) == link_outcome(
            doc.nodes@,
            servers@,
            node as int,
            link as int,
            fallback,
            has_bbox,
            *old(opacity),
        ),
{
    if !doc.nodes[link].kind.is_paint_server() {
        return from_fallback(doc, node, fallback, opacity);
    }
    match servers[link] {
        Some(ServerOrColor::Server(p)) => {
            // A server in object-bounding-box units needs a shape with a box.
            if !has_bbox && p.units() == Some(Units::ObjectBoundingBox) {
                from_fallback(doc, node, fallback, opacity)
            } else {
                Some(p)
            }
        },
        Some(ServerOrColor::Color { color, opacity: so }) => {
            *opacity = so;
            Some(Paint::Color(color))
        },
        None => from_fallback(doc, node, fallback, opacity),
    }
}

/// The paint of a parsed paint value written on element `node`.
fn convert_value(
    doc: &Document,
    servers: &Vec<Option<ServerOrColor>>,
    node: usize,
    value: PaintValue,
    has_bbox: bool,
    opacity: &mut NormalizedF64,
) -> (r: Option<Paint>)
    requires
        doc.wf(),
        node < doc.nodes.len(),
        servers.len() == doc.nodes.len(),
    ensures
        (r, *final(opacity)) == value_outcome(
            doc.nodes@,
            servers@,
            node as int,
            value,
            has_bbox,
            *old(opacity),
        ),
{
    match value {
        PaintValue::NoPaint => None,
        PaintValue::Inherit => None,
        PaintValue::CurrentColor => {
            let c = find_current_color(doc, node);
            split_alpha(c, opacity)
        },
        PaintValue::Color(c) => split_alpha(c, opacity),
        PaintValue::FuncIri(id, fallback) => {
            match doc.element_by_id(&id) {
                None => from_fallback(doc, node, fallback, opacity),
                Some(link) => resolve_link(doc, servers, node, link, fallback, has_bbox, opacity),
            }
        },
    }
}

/// Whether the `aid` paint of element `node` is a reference that cannot be
/// used and has no fallback clause.
fn is_bare_unusable_reference(
    doc: &Document,
    servers: &Vec<Option<ServerOrColor>>,
    node: usize,
    aid: AId,
    has_bbox: bool,
) -> (r: bool)
    requires
        doc.wf(),
        node < doc.nodes.len(),
        servers.len() == doc.nodes.len(),
    ensures
        r == bare_unusable_reference(doc.nodes@, servers@, node as int, aid, has_bbox),
{
    let text = match doc.nodes[node].text_attribute(aid) {
        Some(t) => t,
        None => {
            return false;
        },
    };
    match parse_paint(text.as_str()) {
        Some(PaintValue::FuncIri(id, None)) => match doc.element_by_id(&id) {
            None => true,
            Some(link) => {
                if !doc.nodes[link].kind.is_paint_server() {
                    true
                } else {
                    match servers[link] {
                        Some(ServerOrColor::Server(p)) => !has_bbox && p.units() == Some(
                            Units::ObjectBoundingBox,
                        ),
                        Some(ServerOrColor::Color { .. }) => false,
                        None => true,
                    }
                }
            },
        },
        _ => false,
    }
}

/// The paint that the `fill` or `stroke` attribute of element `node` gives.
///
/// Where the paint carries an alpha, `opacity` receives it. Fill text that
/// does not parse is read as black; stroke text that does not parse gives no
/// paint.
pub fn convert_paint(
    doc: &Document,
    node: usize,
    aid: AId,
    has_bbox: bool,
    servers: &Vec<Option<ServerOrColor>>,
    opacity: &mut NormalizedF64,
) -> (r: Option<Paint>)
    requires
        doc.wf(),
        node < doc.nodes.len(),
        servers.len() == doc.nodes.len(),
    ensures
        (r, *final(opacity)) == paint_outcome(
            doc.nodes@,
            servers@,
            node as int,
            aid,
            has_bbox,
            *old(opacity),
        ),
{
    let text = match doc.nodes[node].text_attribute(aid) {
        Some(t) => t,
        None => {
            return None;
        },
    };
    let value = match parse_paint(text.as_str()) {
        Some(v) => v,
        None => {
            if aid == AId::Fill {
                PaintValue::Color(SvgColor::black())
            } else {
                return None;
            }
        },
    };
    convert_value(doc, servers, node, value, has_bbox, opacity)
}

/// Whether any entry has its sign bit set.
pub open spec fn any_negative(s: Seq<FiniteF64>) -> bool {
    exists|i: int| 0 <= i < s.len() && is_negative_value(#[trigger] s[i])
}

/// The entries added up from the left, starting at zero; `None` once the
/// running sum is no longer finite.
pub open spec fn dash_total(s: Seq<FiniteF64>) -> Option<FiniteF64>
    decreases s.len(),
{
    if s.len() == 0 {
        Some(value_of_u8(0))
    } else {
        match dash_total(s.drop_last()) {
            Some(a) => value_sum(a, s.last()),
            None => None,
        }
    }
}

/// Whether the entries add up to zero, up to rounding.
pub open spec fn sums_to_zero(s: Seq<FiniteF64>) -> bool {
    match dash_total(s) {
        Some(t) => is_fuzzy_zero_value(t),
        None => false,
    }
}

/// A dash pattern as it is used: none where an entry is negative or all add
/// up to zero; an odd-length pattern written twice.
pub open spec fn normalized_dashes(s: Seq<FiniteF64>) -> Option<Seq<FiniteF64>> {
    checked_dashes(s, any_negative(s), sums_to_zero(s))
}

/// A dash pattern once it is known whether an entry is negative and whether
/// the entries add up to zero.
pub open spec fn checked_dashes(s: Seq<FiniteF64>, negative: bool, zero_sum: bool) -> Option<
    Seq<FiniteF64>,
> {
    if negative || zero_sum {
        None
    } else if s.len() % 2 == 1 {
        Some(s + s)
    } else {
        Some(s)
    }
}

/// The entries of an optional pattern.
pub open spec fn dash_view(d: Option<Vec<FiniteF64>>) -> Option<Seq<FiniteF64>> {
    match d {
        Some(v) => Some(v@),
        None => None,
    }
}

/// The dash pattern in effect at element `i`.
pub open spec fn dashes_in_effect(nodes: Seq<SourceNode>, i: int) -> Option<Seq<FiniteF64>> {
    match declarer(nodes, i, AId::StrokeDasharray) {
        Some(d) => normalized_dashes(nodes[d as int].stroke_dasharray.unwrap()@),
        None => None,
    }
}

/// Normalizes a dash pattern: no dashing where an entry is negative or the
/// entries add up to zero; an odd number of entries is repeated once.
pub fn normalize_dasharray(list: &Vec<FiniteF64>) -> (r: Option<Vec<FiniteF64>>)
    requires
        list.len() <= usize::MAX / 2,
    ensures
        dash_view(r) == normalized_dashes(list@),
        any_negative(list@) ==> r.is_none(),
{
    let n = list.len();
    let mut negative = false;
    let mut i: usize = 0;
    while i < n
        invariant
            n == list.len(),
            i <= n,
            negative == exists|j: int| 0 <= j < i && is_negative_value(#[trigger] list@[j]),
        decreases n - i,
    {
        if value_is_negative(list[i]) {
            negative = true;
        }
        i = i + 1;
    }
    let mut total: Option<FiniteF64> = Some(value_from_u8(0));
    i = 0;
    while i < n
        invariant
            n == list.len(),
            i <= n,
            total == dash_total(list@.subrange(0, i as int)),
        decreases n - i,
    {
        proof {
            let next = list@.subrange(0, i + 1);
            assert(next.drop_last() =~= list@.subrange(0, i as int));
            assert(next.last() == list@[i as int]);
        }
        total = match total {
            Some(a) => add_values(a, list[i]),
            None => None,
        };
        i = i + 1;
    }
    assert(list@.subrange(0, n as int) =~= list@);
    let zero_sum = match total {
        Some(t) => values_approx_eq(t, value_from_u8(0), FUZZY_ULPS),
        None => false,
    };
    dashes_after_checks(list, negative, zero_sum)
}

/// The dash pattern from `list`, given whether one of its entries is
/// negative and whether they add up to zero: none in either case, else the
/// list, written twice where its length is odd.
pub fn dashes_after_checks(list: &Vec<FiniteF64>, negative: bool, zero_sum: bool) -> (r: Option<
    Vec<FiniteF64>,
>)
    requires
        list.len() <= usize::MAX / 2,
    ensures
        dash_view(r) == checked_dashes(list@, negative, zero_sum),
{
    if negative || zero_sum {
        return None;
    }
    let n = list.len();
    let mut out: Vec<FiniteF64> = Vec::new();
    let mut i: usize = 0;
    while i < n
        invariant
            n == list.len(),
            i <= n,
            out@ =~= list@.subrange(0, i as int),
        decreases n - i,
    {
        out.push(list[i]);
        i = i + 1;
    }
    if n % 2 == 1 {
        i = 0;
        while i < n
            invariant
                n == list.len(),
                i <= n,
                out@ =~= list@ + list@.subrange(0, i as int),
            decreases n - i,
        {
            out.push(list[i]);
            i = i + 1;
        }
    }
    Some(out)
}

/// The dash pattern in effect at element `node`: the nearest declared one,
/// normalized.
pub fn conv_dasharray(doc: &Document, node: usize) -> (r: Option<Vec<FiniteF64>>)
    requires
        doc.wf(),
        node < doc.nodes.len(),
        forall|i: int|
            0 <= i < doc.nodes.len() ==> match #[trigger] doc.nodes@[i].stroke_dasharray {
                Some(v) => v.len() <= usize::MAX / 2,
                None => true,
            },
    ensures
        dash_view(r) == dashes_in_effect(doc.nodes@, node as int),
{
    let d = doc.find_declarer(node, AId::StrokeDasharray)?;
    match &doc.nodes[d].stroke_dasharray {
        Some(list) => normalize_dasharray(list),
        None => None,
    }
}

/// An opacity the element sets itself, else full opacity.
pub open spec fn own_opacity(o: Option<NormalizedF64>) -> NormalizedF64 {
    match o {
        Some(v) => v,
        None => opacity_of_u8(255),
    }
}

/// The fill or clip rule in effect at element `i`: the nearest declared one,
/// and the default where that does not parse.
pub open spec fn rule_in_effect(nodes: Seq<SourceNode>, i: int, aid: AId) -> FillRule {
    match declarer(nodes, i, aid) {
        Some(d) => match FillRule::spec_parse(text_attribute(nodes[d as int], aid).unwrap()@) {
            Some(r) => r,
            None => FillRule::NonZero,
        },
        None => FillRule::NonZero,
    }
}

/// The line cap in effect at element `i`.
pub open spec fn cap_in_effect(nodes: Seq<SourceNode>, i: int) -> LineCap {
    match declarer(nodes, i, AId::StrokeLinecap) {
        Some(d) => match LineCap::spec_parse(nodes[d as int].stroke_linecap.unwrap()@) {
            Some(c) => c,
            None => LineCap::Butt,
        },
        None => LineCap::Butt,
    }
}

/// The line join in effect at element `i`.
pub open spec fn join_in_effect(nodes: Seq<SourceNode>, i: int) -> LineJoin {
    match declarer(nodes, i, AId::StrokeLinejoin) {
        Some(d) => match LineJoin::spec_parse(nodes[d as int].stroke_linejoin.unwrap()@) {
            Some(j) => j,
            None => LineJoin::Miter,
        },
        None => LineJoin::Miter,
    }
}

/// A number that element `n` sets itself.
pub open spec fn number_attribute(n: SourceNode, aid: AId) -> Option<FiniteF64> {
    match aid {
        AId::StrokeWidth => n.stroke_width,
        AId::StrokeMiterlimit => n.stroke_miterlimit,
        AId::StrokeDashoffset => n.stroke_dashoffset,
        _ => None,
    }
}

/// The number in effect at element `i`: the nearest declared one, else `default`.
pub open spec fn number_in_effect(
    nodes: Seq<SourceNode>,
    i: int,
    aid: AId,
    default: FiniteF64,
) -> FiniteF64 {
    match declarer(nodes, i, aid) {
        Some(d) => number_attribute(nodes[d as int], aid).unwrap(),
        None => default,
    }
}

/// The paint and paint opacity that the nearest `fill` gives; black where
/// no element declares one, or where it is a reference that cannot be used
/// and has no fallback clause.
pub open spec fn fill_paint(
    nodes: Seq<SourceNode>,
    servers: Seq<Option<ServerOrColor>>,
    i: int,
    has_bbox: bool,
) -> (Option<Paint>, NormalizedF64) {
    match declarer(nodes, i, AId::Fill) {
        Some(d) => if bare_unusable_reference(nodes, servers, d as int, AId::Fill, has_bbox) {
            (Some(black_paint()), opacity_of_u8(255))
        } else {
            paint_outcome(nodes, servers, d as int, AId::Fill, has_bbox, opacity_of_u8(255))
        },
        None => (Some(black_paint()), opacity_of_u8(255)),
    }
}

/// The fill of element `i`.
pub open spec fn resolved_fill(
    nodes: Seq<SourceNode>,
    servers: Seq<Option<ServerOrColor>>,
    i: int,
    has_bbox: bool,
    state: State,
) -> Option<Fill> {
    if state.in_clip_path {
        Some(
            Fill {
                paint: black_paint(),
                opacity: opacity_of_u8(255),
                rule: rule_in_effect(nodes, i, AId::ClipRule),
            },
        )
    } else {
        match fill_paint(nodes, servers, i, has_bbox).0 {
            Some(p) => Some(
                Fill {
                    paint: p,
                    opacity: opacity_product(
                        fill_paint(nodes, servers, i, has_bbox).1,
                        own_opacity(nodes[i].fill_opacity),
                    ),
                    rule: rule_in_effect(nodes, i, AId::FillRule),
                },
            ),
            None => None,
        }
    }
}

/// The paint and paint opacity that the nearest `stroke` gives; no paint
/// where no element declares one.
pub open spec fn stroke_paint(
    nodes: Seq<SourceNode>,
    servers: Seq<Option<ServerOrColor>>,
    i: int,
    has_bbox: bool,
) -> (Option<Paint>, NormalizedF64) {
    match declarer(nodes, i, AId::Stroke) {
        Some(d) => paint_outcome(
            nodes,
            servers,
            d as int,
            AId::Stroke,
            has_bbox,
            opacity_of_u8(255),
        ),
        None => (None, opacity_of_u8(255)),
    }
}

/// The stroke width in effect at element `i`, where it is above zero.
pub open spec fn width_in_effect(nodes: Seq<SourceNode>, i: int) -> Option<NonZeroPositiveF64> {
    positive_of(number_in_effect(nodes, i, AId::StrokeWidth, value_of_u8(1)))
}

/// Whether element `i` is stroked.
pub open spec fn has_stroke(
    nodes: Seq<SourceNode>,
    servers: Seq<Option<ServerOrColor>>,
    i: int,
    has_bbox: bool,
    state: State,
) -> bool {
    !state.in_clip_path && stroke_paint(nodes, servers, i, has_bbox).0.is_some()
        && width_in_effect(nodes, i).is_some()
}

/// Whether `s` is the stroke of element `i`, where it has one.
pub open spec fn is_resolved_stroke(
    s: Stroke,
    nodes: Seq<SourceNode>,
    servers: Seq<Option<ServerOrColor>>,
    i: int,
    has_bbox: bool,
) -> bool {
    &&& Some(s.paint) == stroke_paint(nodes, servers, i, has_bbox).0
    &&& s.opacity == opacity_product(
        stroke_paint(nodes, servers, i, has_bbox).1,
        own_opacity(nodes[i].stroke_opacity),
    )
    &&& Some(s.width) == width_in_effect(nodes, i)
    &&& s.miterlimit@ == StrokeMiterlimit::spec_clamped(
        number_in_effect(nodes, i, AId::StrokeMiterlimit, value_of_u8(4)),
    )
    &&& dash_view(s.dasharray) == dashes_in_effect(nodes, i)
    &&& s.dashoffset == number_in_effect(nodes, i, AId::StrokeDashoffset, value_of_u8(0))
    &&& s.linecap == cap_in_effect(nodes, i)
    &&& s.linejoin == join_in_effect(nodes, i)
}

/// What a document must hold for fills and strokes to be resolved in it.
pub open spec fn resolvable(doc: &Document, servers: Seq<Option<ServerOrColor>>) -> bool {
    &&& doc.wf()
    &&& servers.len() == doc.nodes.len()
    &&& forall|i: int|
        0 <= i < doc.nodes.len() ==> match #[trigger] doc.nodes@[i].stroke_dasharray {
            Some(v) => v.len() <= usize::MAX / 2,
            None => true,
        }
}

impl Document {
    /// The text attribute `aid` of the element that declares it nearest `node`.
    fn find_text(&self, node: usize, aid: AId) -> (r: Option<&String>)
        requires
            self.wf(),
            node < self.nodes.len(),
            aid == AId::ClipRule || aid == AId::FillRule || aid == AId::StrokeLinecap || aid
                == AId::StrokeLinejoin,
        ensures
            match declarer(self.nodes@, node as int, aid) {
                Some(d) => r.is_some() && text_attribute(self.nodes@[d as int], aid) == Some(
                    *r.unwrap(),
                ),
                None => r.is_none(),
            },
    {
        match self.find_declarer(node, aid) {
            Some(d) => self.nodes[d].text_attribute(aid),
            None => None,
        }
    }

    /// The number attribute `aid` in effect at `node`, else `default`.
    fn find_number(&self, node: usize, aid: AId, default: FiniteF64) -> (r: FiniteF64)
        requires
            self.wf(),
            node < self.nodes.len(),
            aid == AId::StrokeWidth || aid == AId::StrokeMiterlimit || aid
                == AId::StrokeDashoffset,
        ensures
            r == number_in_effect(self.nodes@, node as int, aid, default),
    {
        match self.find_declarer(node, aid) {
            Some(d) => {
                let n = &self.nodes[d];
                match aid {
                    AId::StrokeWidth => n.stroke_width.unwrap(),
                    AId::StrokeMiterlimit => n.stroke_miterlimit.unwrap(),
                    _ => n.stroke_dashoffset.unwrap(),
                }
            },
            None => default,
        }
    }

    /// The fill or clip rule in effect at `node`.
    fn find_rule(&self, node: usize, aid: AId) -> (r: FillRule)
        requires
            self.wf(),
            node < self.nodes.len(),
            aid == AId::ClipRule || aid == AId::FillRule,
        ensures
            r == rule_in_effect(self.nodes@, node as int, aid),
    {
        match self.find_text(node, aid) {
            Some(t) => match FillRule::parse(t) {
                Some(r) => r,
                None => FillRule::NonZero,
            },
            None => FillRule::NonZero,
        }
    }
}

/// The paint and paint opacity that the nearest `fill` of element `node` gives.
fn find_fill_paint(
    doc: &Document,
    node: usize,
    has_bbox: bool,
    servers: &Vec<Option<ServerOrColor>>,
) -> (r: (Option<Paint>, NormalizedF64))
    requires
        resolvable(doc, servers@),
        node < doc.nodes.len(),
    ensures
        r == fill_paint(doc.nodes@, servers@, node as int, has_bbox),
{
    let mut sub_opacity = opacity_from_u8(255);
    let paint = match doc.find_declarer(node, AId::Fill) {
        Some(d) => match convert_paint(doc, d, AId::Fill, has_bbox, servers, &mut sub_opacity) {
            Some(p) => p,
            None => {
                // A reference with nothing to fall back to leaves fill's
                // default in place: opaque black.
                if is_bare_unusable_reference(doc, servers, d, AId::Fill, has_bbox) {
                    Paint::Color(Color::black())
                } else {
                    return (None, sub_opacity);
                }
            },
        },
        None => Paint::Color(Color::black()),
    };
    (Some(paint), sub_opacity)
}

/// Resolves the fill of element `node`.
///
/// Clip-path content is filled opaque black under its clip rule. Elsewhere
/// the nearest declared `fill` is interpreted (black where none is declared,
/// where its text does not parse, or where it is a reference that cannot be
/// used and has no fallback clause), and its opacity is multiplied by the
/// element's own `fill-opacity`. `None` means the element is not filled.
pub fn resolve_fill(
    doc: &Document,
    node: usize,
    has_bbox: bool,
    state: &State,
    servers: &Vec<Option<ServerOrColor>>,
) -> (r: Option<Fill>)
    requires
        resolvable(doc, servers@),
        node < doc.nodes.len(),
    ensures
        r == resolved_fill(doc.nodes@, servers@, node as int, has_bbox, *state),
        match r {
            Some(f) => !state.in_clip_path && fill_paint(doc.nodes@, servers@, node as int, has_bbox).1
                == opacity_of_u8(255) ==> same_opacity(
                f.opacity,
                own_opacity(doc.nodes@[node as int].fill_opacity),
            ),
            None => true,
        },
{
    if state.in_clip_path {
        // Clip-path content can only be filled black.
        return Some(
            Fill {
                paint: Paint::Color(Color::black()),
                opacity: opacity_from_u8(255),
                rule: doc.find_rule(node, AId::ClipRule),
            },
        );
    }
    let (paint, sub_opacity) = find_fill_paint(doc, node, has_bbox, servers);
    let paint = paint?;
    let fill_opacity = match doc.nodes[node].fill_opacity {
        Some(o) => o,
        None => opacity_from_u8(255),
    };
    Some(
        Fill {
            paint,
            opacity: mul_opacity(sub_opacity, fill_opacity),
            rule: doc.find_rule(node, AId::FillRule),
        },
    )
}

/// Resolves the stroke of element `node`.
///
/// Clip-path content is never stroked. Elsewhere there is a stroke only
/// where some element at or above `node` declares a `stroke` that gives a
/// paint and the width in effect is above zero. The miter limit is raised
/// to one where it is lower, the dash pattern is normalized, and the paint
/// opacity is multiplied by the element's own `stroke-opacity`.
pub fn resolve_stroke(
    doc: &Document,
    node: usize,
    has_bbox: bool,
    state: &State,
    servers: &Vec<Option<ServerOrColor>>,
) -> (r: Option<Stroke>)
    requires
        resolvable(doc, servers@),
        node < doc.nodes.len(),
    ensures
        r.is_some() == has_stroke(doc.nodes@, servers@, node as int, has_bbox, *state),
        match r {
            Some(s) => is_resolved_stroke(s, doc.nodes@, servers@, node as int, has_bbox),
            None => true,
        },
{
    if state.in_clip_path {
        // Clip-path content cannot be stroked.
        return None;
    }
    let mut sub_opacity = opacity_from_u8(255);
    let paint = match doc.find_declarer(node, AId::Stroke) {
        Some(d) => convert_paint(doc, d, AId::Stroke, has_bbox, servers, &mut sub_opacity)?,
        None => {
            return None;
        },
    };
    let width = to_positive(doc.find_number(node, AId::StrokeWidth, value_from_u8(1)))?;
    let miterlimit = StrokeMiterlimit::new(
        doc.find_number(node, AId::StrokeMiterlimit, value_from_u8(4)),
    );
    let stroke_opacity = match doc.nodes[node].stroke_opacity {
        Some(o) => o,
        None => opacity_from_u8(255),
    };
    let linecap = match doc.find_text(node, AId::StrokeLinecap) {
        Some(t) => match LineCap::parse(t) {
            Some(c) => c,
            None => LineCap::Butt,
        },
        None => LineCap::Butt,
    };
    let linejoin = match doc.find_text(node, AId::StrokeLinejoin) {
        Some(t) => match LineJoin::parse(t) {
            Some(j) => j,
            None => LineJoin::Miter,
        },
        None => LineJoin::Miter,
    };
    Some(
        Stroke {
            paint,
            dasharray: conv_dasharray(doc, node),
            dashoffset: doc.find_number(node, AId::StrokeDashoffset, value_from_u8(0)),
            miterlimit,
            opacity: mul_opacity(sub_opacity, stroke_opacity),
            width,
            linecap,
            linejoin,
        },
    )
}

} // verus!
