//! A resolved vector-graphics scene graph and the style resolution that fills it.
//!
//! `source` holds the document that resolution reads, `style` resolves fills
//! and strokes from it, `tree` holds the resolved scene graph and its
//! queries, and `laws` states properties that hold for every document.

mod laws;
mod num;
mod paint;
mod source;
mod style;
mod tree;

pub use laws::{
    ancestor_chain_follows_parents, bboxless_shape_uses_fallback, text_behind_fill_pattern_is_found,
    undeclared_stroke_is_none,
    unparseable_fill_is_black,
};
pub use num::{
    approx_eq_ulps_of, is_below_one, is_full_opacity, is_fuzzy_zero_value, is_negative_value,
    opacity_of_u8, opacity_product, positive_of, same_opacity, value_less, value_of_u8,
    value_sum, FUZZY_ULPS,
};
pub use paint::{
    black_paint, paint_units, BlendMode, Color, Fill, FillRule, ImageRendering, LineCap,
    LineJoin, NonZeroF64, Paint, PaintOrder, ServerRef, ShapeRendering, SpreadMethod, Stroke,
    StrokeMiterlimit, TextRendering, Units, Visibility,
};
pub use source::{
    declarer, doc_wf, first_with_id, AId, Document, ElementKind, SourceNode, SvgColor,
};
pub use style::{
    any_negative, bare_unusable_reference, cap_in_effect, checked_dashes, color_outcome, conv_dasharray, convert_paint, current_color,
    dash_total, dash_view, dashes_after_checks, dashes_in_effect, fallback_outcome, fill_paint, from_fallback,
    has_stroke, is_resolved_stroke, join_in_effect, normalize_dasharray, normalized_dashes,
    link_outcome, number_attribute, number_in_effect, own_opacity, paint_outcome, parsed_paint, reference_fallback, reference_unusable, resolvable,
    resolve_fill, resolve_stroke, resolved_fill, rgb_of, rule_in_effect, stroke_paint,
    sums_to_zero, text_attribute, value_outcome, width_in_effect, PaintFallback, PaintValue,
    ServerOrColor, State,
};
pub use tree::{
    ancestor_chain, any_reaches_within, any_text_within, background_ancestor, first_with_node_id,
    has_enable_background, kind_in_tree, preorder, preorder_children, reaches_within, reads_background, scan_successors,
    text_within, uses_background, BaseGradient, ClipPath, EnableBackground, Filter, Group, Image,
    ImageKind, Input, LinearGradient, Mask, Node, NodeKind, Path, PathSegment, Pattern,
    Primitive, RadialGradient, Rect, Size, Stop, Text, Tree, ViewBox,
};
