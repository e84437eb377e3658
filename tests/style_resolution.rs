use strict_num::{FiniteF64, NormalizedF64};
use usvg_tree::{
    conv_dasharray, convert_paint, dashes_after_checks, from_fallback, normalize_dasharray, resolve_fill,
    resolve_stroke, AId, Color, Document, ElementKind, FillRule, LineCap, LineJoin, Paint,
    PaintFallback, ServerOrColor, ServerRef, SourceNode, State, StrokeMiterlimit, SvgColor, Units,
};

fn num(v: f64) -> FiniteF64 {
    FiniteF64::new(v).unwrap()
}

fn nums(v: &[f64]) -> Vec<FiniteF64> {
    v.iter().map(|x| num(*x)).collect()
}

fn values(v: &[FiniteF64]) -> Vec<f64> {
    v.iter().map(|x| x.get()).collect()
}

fn element(parent: Option<usize>) -> SourceNode {
    SourceNode {
        parent,
        kind: ElementKind::Other,
        id: String::new(),
        fill: None,
        stroke: None,
        color: None,
        clip_rule: None,
        fill_rule: None,
        fill_opacity: None,
        stroke_opacity: None,
        stroke_width: None,
        stroke_miterlimit: None,
        stroke_dasharray: None,
        stroke_dashoffset: None,
        stroke_linecap: None,
        stroke_linejoin: None,
    }
}

fn no_servers(doc: &Document) -> Vec<Option<ServerOrColor>> {
    doc.nodes.iter().map(|_| None).collect()
}

const OUTSIDE: State = State { in_clip_path: false };
const IN_CLIP: State = State { in_clip_path: true };

#[test]
fn dasharray_odd_length_is_repeated() {
    let r = normalize_dasharray(&nums(&[1.0, 2.0, 3.0])).unwrap();
    assert_eq!(values(&r), vec![1.0, 2.0, 3.0, 1.0, 2.0, 3.0]);
}

#[test]
fn dasharray_even_length_is_kept() {
    let r = normalize_dasharray(&nums(&[1.0, 2.0, 3.0, 4.0])).unwrap();
    assert_eq!(values(&r), vec![1.0, 2.0, 3.0, 4.0]);
}

#[test]
fn dasharray_zero_sum_is_none() {
    assert!(normalize_dasharray(&nums(&[0.0, 0.0])).is_none());
}

#[test]
fn dasharray_empty_is_none() {
    assert!(normalize_dasharray(&Vec::new()).is_none());
}

#[test]
fn dasharray_negative_entry_is_none() {
    assert!(normalize_dasharray(&nums(&[1.0, -2.0])).is_none());
    assert!(normalize_dasharray(&nums(&[-1.0, 5.0, 3.0])).is_none());
    assert!(normalize_dasharray(&nums(&[4.0, 2.0, -0.0])).is_none());
}

#[test]
fn dash_logic_after_checks() {
    let list = nums(&[1.0, 2.0, 3.0]);
    assert!(dashes_after_checks(&list, true, false).is_none());
    assert!(dashes_after_checks(&list, false, true).is_none());
    let r = dashes_after_checks(&list, false, false).unwrap();
    assert_eq!(values(&r), vec![1.0, 2.0, 3.0, 1.0, 2.0, 3.0]);
    let even = nums(&[4.0, 5.0]);
    assert_eq!(values(&dashes_after_checks(&even, false, false).unwrap()), vec![4.0, 5.0]);
}

#[test]
fn bare_missing_reference_in_paint_step_is_no_paint() {
    let doc = gradient_doc("url(#missing)");
    let mut opacity = NormalizedF64::ONE;
    assert!(convert_paint(&doc, 0, AId::Fill, true, &no_servers(&doc), &mut opacity).is_none());
    assert!(convert_paint(&doc, 0, AId::Stroke, true, &no_servers(&doc), &mut opacity).is_none());
}

#[test]
fn non_server_reference_without_fallback_fills_black() {
    let mut doc = gradient_doc("url(#g)");
    doc.nodes[1].kind = ElementKind::Other;
    let f = resolve_fill(&doc, 0, true, &OUTSIDE, &no_servers(&doc)).unwrap();
    assert_eq!(f.paint, Paint::Color(Color::black()));
}

#[test]
fn dasharray_is_inherited() {
    let mut root = element(None);
    root.stroke_dasharray = Some(nums(&[5.0]));
    let doc = Document { nodes: vec![root, element(Some(0))] };
    let r = conv_dasharray(&doc, 1).unwrap();
    assert_eq!(values(&r), vec![5.0, 5.0]);
    let bare = Document { nodes: vec![element(None)] };
    assert!(conv_dasharray(&bare, 0).is_none());
}

#[test]
fn unparseable_fill_gives_black() {
    let mut n = element(None);
    n.fill = Some("qwe(".to_string());
    let doc = Document { nodes: vec![n] };
    let f = resolve_fill(&doc, 0, true, &OUTSIDE, &no_servers(&doc)).unwrap();
    assert_eq!(f.paint, Paint::Color(Color::black()));
    assert_eq!(f.opacity, NormalizedF64::ONE);
    assert_eq!(f.rule, FillRule::NonZero);
}

#[test]
fn unparseable_fill_keeps_fill_opacity() {
    let mut n = element(None);
    n.fill = Some("qwe(".to_string());
    n.fill_opacity = NormalizedF64::new(0.5);
    let doc = Document { nodes: vec![n] };
    let f = resolve_fill(&doc, 0, true, &OUTSIDE, &no_servers(&doc)).unwrap();
    assert_eq!(f.paint, Paint::Color(Color::black()));
    assert_eq!(f.opacity.get(), 0.5);
}

#[test]
fn undeclared_fill_is_black() {
    let doc = Document { nodes: vec![element(None)] };
    let f = resolve_fill(&doc, 0, true, &OUTSIDE, &no_servers(&doc)).unwrap();
    assert_eq!(f.paint, Paint::Color(Color::black()));
}

#[test]
fn fill_none_is_no_fill() {
    let mut n = element(None);
    n.fill = Some("none".to_string());
    let doc = Document { nodes: vec![n] };
    assert!(resolve_fill(&doc, 0, true, &OUTSIDE, &no_servers(&doc)).is_none());
}

#[test]
fn fill_color_alpha_and_opacity_multiply() {
    let mut root = element(None);
    root.fill = Some("#ff000080".to_string());
    root.fill_rule = Some("evenodd".to_string());
    let mut child = element(Some(0));
    child.fill_opacity = NormalizedF64::new(0.5);
    let doc = Document { nodes: vec![root, child] };
    let f = resolve_fill(&doc, 1, true, &OUTSIDE, &no_servers(&doc)).unwrap();
    assert_eq!(f.paint, Paint::Color(Color::new_rgb(255, 0, 0)));
    let expected = (128.0 / 255.0) * 0.5;
    assert!((f.opacity.get() - expected).abs() < 1e-9);
    assert_eq!(f.rule, FillRule::EvenOdd);
}

#[test]
fn clip_content_fill_is_black_with_clip_rule() {
    let mut n = element(None);
    n.fill = Some("#00ff00".to_string());
    n.clip_rule = Some("evenodd".to_string());
    n.fill_opacity = NormalizedF64::new(0.5);
    let doc = Document { nodes: vec![n] };
    let f = resolve_fill(&doc, 0, true, &IN_CLIP, &no_servers(&doc)).unwrap();
    assert_eq!(f.paint, Paint::Color(Color::black()));
    assert_eq!(f.opacity, NormalizedF64::ONE);
    assert_eq!(f.rule, FillRule::EvenOdd);
}

#[test]
fn undeclared_stroke_is_no_stroke() {
    let mut n = element(None);
    n.stroke_width = Some(num(3.0));
    let doc = Document { nodes: vec![n] };
    assert!(resolve_stroke(&doc, 0, true, &OUTSIDE, &no_servers(&doc)).is_none());
}

#[test]
fn clip_content_is_not_stroked() {
    let mut n = element(None);
    n.stroke = Some("red".to_string());
    let doc = Document { nodes: vec![n] };
    assert!(resolve_stroke(&doc, 0, true, &IN_CLIP, &no_servers(&doc)).is_none());
}

#[test]
fn unparseable_stroke_is_no_stroke() {
    let mut n = element(None);
    n.stroke = Some("qwe(".to_string());
    let doc = Document { nodes: vec![n] };
    assert!(resolve_stroke(&doc, 0, true, &OUTSIDE, &no_servers(&doc)).is_none());
}

#[test]
fn zero_stroke_width_is_no_stroke() {
    let mut n = element(None);
    n.stroke = Some("red".to_string());
    n.stroke_width = Some(num(0.0));
    let doc = Document { nodes: vec![n] };
    assert!(resolve_stroke(&doc, 0, true, &OUTSIDE, &no_servers(&doc)).is_none());
}

#[test]
fn stroke_properties_resolve() {
    let mut root = element(None);
    root.stroke = Some("#0000ff".to_string());
    root.stroke_linecap = Some("round".to_string());
    root.stroke_linejoin = Some("bevel".to_string());
    root.stroke_width = Some(num(2.5));
    root.stroke_dasharray = Some(nums(&[1.0, 2.0, 3.0]));
    let mut child = element(Some(0));
    child.stroke_opacity = NormalizedF64::new(0.25);
    child.stroke_dashoffset = Some(num(1.5));
    let doc = Document { nodes: vec![root, child] };
    let s = resolve_stroke(&doc, 1, true, &OUTSIDE, &no_servers(&doc)).unwrap();
    assert_eq!(s.paint, Paint::Color(Color::new_rgb(0, 0, 255)));
    assert_eq!(s.width.get(), 2.5);
    assert_eq!(s.opacity.get(), 0.25);
    assert_eq!(s.linecap, LineCap::Round);
    assert_eq!(s.linejoin, LineJoin::Bevel);
    assert_eq!(s.miterlimit.get().get(), 4.0);
    assert_eq!(s.dashoffset.get(), 1.5);
    assert_eq!(values(&s.dasharray.unwrap()), vec![1.0, 2.0, 3.0, 1.0, 2.0, 3.0]);
}

#[test]
fn stroke_defaults() {
    let mut n = element(None);
    n.stroke = Some("black".to_string());
    let doc = Document { nodes: vec![n] };
    let s = resolve_stroke(&doc, 0, true, &OUTSIDE, &no_servers(&doc)).unwrap();
    assert_eq!(s.width.get(), 1.0);
    assert_eq!(s.linecap, LineCap::Butt);
    assert_eq!(s.linejoin, LineJoin::Miter);
    assert_eq!(s.dashoffset.get(), 0.0);
    assert!(s.dasharray.is_none());
}

#[test]
fn stroke_miterlimit_below_one_is_raised() {
    let mut n = element(None);
    n.stroke = Some("black".to_string());
    n.stroke_miterlimit = Some(num(0.5));
    let doc = Document { nodes: vec![n] };
    let s = resolve_stroke(&doc, 0, true, &OUTSIDE, &no_servers(&doc)).unwrap();
    assert_eq!(s.miterlimit.get().get(), 1.0);
}

#[test]
fn miterlimit_clamping() {
    assert_eq!(StrokeMiterlimit::new(num(0.5)).get().get(), 1.0);
    assert_eq!(StrokeMiterlimit::new(num(10.0)).get().get(), 10.0);
    assert_eq!(StrokeMiterlimit::default().get().get(), 4.0);
}

fn gradient_doc(paint_text: &str) -> Document {
    let mut shape = element(None);
    shape.fill = Some(paint_text.to_string());
    shape.stroke = Some(paint_text.to_string());
    let mut grad = element(None);
    grad.kind = ElementKind::LinearGradient;
    grad.id = "g".to_string();
    Document { nodes: vec![shape, grad] }
}

fn obb_server() -> Paint {
    Paint::LinearGradient(ServerRef { index: 0, units: Units::ObjectBoundingBox })
}

#[test]
fn bboxless_shape_uses_fallback_color() {
    let doc = gradient_doc("url(#g) #ff0000");
    let servers = vec![None, Some(ServerOrColor::Server(obb_server()))];
    let f = resolve_fill(&doc, 0, false, &OUTSIDE, &servers).unwrap();
    assert_eq!(f.paint, Paint::Color(Color::new_rgb(255, 0, 0)));
    let s = resolve_stroke(&doc, 0, false, &OUTSIDE, &servers).unwrap();
    assert_eq!(s.paint, Paint::Color(Color::new_rgb(255, 0, 0)));
}

#[test]
fn shape_with_bbox_uses_gradient() {
    let doc = gradient_doc("url(#g) #ff0000");
    let servers = vec![None, Some(ServerOrColor::Server(obb_server()))];
    let f = resolve_fill(&doc, 0, true, &OUTSIDE, &servers).unwrap();
    assert_eq!(f.paint, obb_server());
}

#[test]
fn user_space_server_needs_no_bbox() {
    let doc = gradient_doc("url(#g) #ff0000");
    let user = Paint::LinearGradient(ServerRef { index: 0, units: Units::UserSpaceOnUse });
    let servers = vec![None, Some(ServerOrColor::Server(user))];
    let f = resolve_fill(&doc, 0, false, &OUTSIDE, &servers).unwrap();
    assert_eq!(f.paint, user);
}

#[test]
fn bboxless_shape_without_fallback_is_black_fill_and_no_stroke() {
    let doc = gradient_doc("url(#g)");
    let servers = vec![None, Some(ServerOrColor::Server(obb_server()))];
    let f = resolve_fill(&doc, 0, false, &OUTSIDE, &servers).unwrap();
    assert_eq!(f.paint, Paint::Color(Color::black()));
    assert_eq!(f.opacity, NormalizedF64::ONE);
    assert!(resolve_stroke(&doc, 0, false, &OUTSIDE, &servers).is_none());
}

#[test]
fn missing_reference_without_fallback_fills_black() {
    let doc = gradient_doc("url(#missing)");
    let f = resolve_fill(&doc, 0, true, &OUTSIDE, &no_servers(&doc)).unwrap();
    assert_eq!(f.paint, Paint::Color(Color::black()));
    assert_eq!(f.opacity, NormalizedF64::ONE);
    assert!(resolve_stroke(&doc, 0, true, &OUTSIDE, &no_servers(&doc)).is_none());
}

#[test]
fn explicit_none_fallback_is_no_fill() {
    let doc = gradient_doc("url(#missing) none");
    assert!(resolve_fill(&doc, 0, true, &OUTSIDE, &no_servers(&doc)).is_none());
}

#[test]
fn missing_reference_uses_fallback() {
    let doc = gradient_doc("url(#nothing) currentColor");
    let mut opacity = NormalizedF64::ONE;
    let p = convert_paint(&doc, 0, AId::Fill, true, &no_servers(&doc), &mut opacity);
    assert_eq!(p, Some(Paint::Color(Color::black())));
}

#[test]
fn reference_to_non_server_uses_fallback() {
    let mut doc = gradient_doc("url(#g) #00ff0080");
    doc.nodes[1].kind = ElementKind::Other;
    let mut opacity = NormalizedF64::ONE;
    let p = convert_paint(&doc, 0, AId::Stroke, true, &no_servers(&doc), &mut opacity);
    assert_eq!(p, Some(Paint::Color(Color::new_rgb(0, 255, 0))));
    assert_eq!(opacity, NormalizedF64::new_u8(128));
    let mut bare = gradient_doc("url(#g)");
    bare.nodes[1].kind = ElementKind::Other;
    let mut opacity = NormalizedF64::ONE;
    assert!(convert_paint(&bare, 0, AId::Stroke, true, &no_servers(&bare), &mut opacity).is_none());
}

#[test]
fn degenerate_server_gives_its_color() {
    let doc = gradient_doc("url(#g)");
    let half = NormalizedF64::new(0.5).unwrap();
    let servers = vec![
        None,
        Some(ServerOrColor::Color { color: Color::new_rgb(1, 2, 3), opacity: half }),
    ];
    let mut opacity = NormalizedF64::ONE;
    let p = convert_paint(&doc, 0, AId::Stroke, true, &servers, &mut opacity);
    assert_eq!(p, Some(Paint::Color(Color::new_rgb(1, 2, 3))));
    assert_eq!(opacity, half);
}

#[test]
fn unresolvable_server_uses_fallback() {
    let doc = gradient_doc("url(#g) none");
    let mut opacity = NormalizedF64::ONE;
    let p = convert_paint(&doc, 0, AId::Fill, true, &no_servers(&doc), &mut opacity);
    assert!(p.is_none());
    let bare = gradient_doc("url(#g)");
    let half = NormalizedF64::new(0.5).unwrap();
    let mut opacity = half;
    let p = convert_paint(&bare, 0, AId::Fill, true, &no_servers(&bare), &mut opacity);
    assert!(p.is_none());
    assert_eq!(opacity, half);
    let f = resolve_fill(&bare, 0, true, &OUTSIDE, &no_servers(&bare)).unwrap();
    assert_eq!(f.paint, Paint::Color(Color::black()));
    assert_eq!(f.opacity, NormalizedF64::ONE);
}

#[test]
fn current_color_is_inherited() {
    let mut root = element(None);
    root.color = Some(SvgColor { red: 10, green: 20, blue: 30, alpha: 51 });
    let mut child = element(Some(0));
    child.fill = Some("currentColor".to_string());
    let doc = Document { nodes: vec![root, child] };
    let mut opacity = NormalizedF64::ONE;
    let p = convert_paint(&doc, 1, AId::Fill, true, &no_servers(&doc), &mut opacity);
    assert_eq!(p, Some(Paint::Color(Color::new_rgb(10, 20, 30))));
    assert_eq!(opacity.get(), 0.2);
}

#[test]
fn fallback_variants() {
    let doc = Document { nodes: vec![element(None)] };
    let mut opacity = NormalizedF64::ONE;
    assert!(from_fallback(&doc, 0, None, &mut opacity).is_none());
    assert!(from_fallback(&doc, 0, Some(PaintFallback::NoPaint), &mut opacity).is_none());
    let c = SvgColor { red: 9, green: 8, blue: 7, alpha: 0 };
    let p = from_fallback(&doc, 0, Some(PaintFallback::Color(c)), &mut opacity);
    assert_eq!(p, Some(Paint::Color(Color::new_rgb(9, 8, 7))));
    assert_eq!(opacity, NormalizedF64::ZERO);
}

#[test]
fn keyword_parsing() {
    assert_eq!(LineCap::parse(&"square".to_string()), Some(LineCap::Square));
    assert_eq!(LineCap::parse(&"Square".to_string()), None);
    assert_eq!(LineJoin::parse(&"miter".to_string()), Some(LineJoin::Miter));
    assert_eq!(LineJoin::parse(&"".to_string()), None);
    assert_eq!(FillRule::parse(&"nonzero".to_string()), Some(FillRule::NonZero));
    assert_eq!(FillRule::parse(&"even-odd".to_string()), None);
}

#[test]
fn declarer_is_nearest() {
    let mut root = element(None);
    root.fill = Some("red".to_string());
    let mut mid = element(Some(0));
    mid.fill = Some("blue".to_string());
    let leaf = element(Some(1));
    let doc = Document { nodes: vec![root, mid, leaf] };
    assert_eq!(doc.find_declarer(2, AId::Fill), Some(1));
    assert_eq!(doc.find_declarer(0, AId::Fill), Some(0));
    assert_eq!(doc.find_declarer(2, AId::Stroke), None);
    assert_eq!(doc.element_by_id(&"none".to_string()), None);
}
