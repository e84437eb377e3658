use strict_num::{FiniteF64, NormalizedF64};
use svgtypes::{AspectRatio, Transform};
use usvg_tree::{
    BlendMode, ClipPath, Color, EnableBackground, Fill, Filter, Group, Input, Mask, Node,
    NodeKind, Paint, Path, Pattern, Primitive, Rect, ServerRef, ShapeRendering, Size, Text, Tree,
    Units, ViewBox,
};

fn num(v: f64) -> FiniteF64 {
    FiniteF64::new(v).unwrap()
}

fn rect() -> Rect {
    Rect { x: num(0.0), y: num(0.0), width: num(10.0), height: num(10.0) }
}

fn tree() -> Tree {
    Tree {
        size: Size { width: num(10.0), height: num(10.0) },
        view_box: ViewBox { rect: rect(), aspect: AspectRatio::default() },
        root: 0,
        nodes: vec![Node { parent: None, children: Vec::new(), kind: NodeKind::Group(Group::default()) }],
        linear_gradients: Vec::new(),
        radial_gradients: Vec::new(),
        patterns: Vec::new(),
        clip_paths: Vec::new(),
        masks: Vec::new(),
        filters: Vec::new(),
    }
}

fn group_with(f: impl Fn(&mut Group)) -> NodeKind {
    let mut g = Group::default();
    f(&mut g);
    NodeKind::Group(g)
}

fn translate(x: f64) -> Transform {
    Transform::new(1.0, 0.0, 0.0, 1.0, x, 0.0)
}

fn text() -> NodeKind {
    NodeKind::Text(Text { id: String::new(), transform: Transform::default() })
}

#[test]
fn should_isolate_every_combination() {
    for bits in 0u32..64 {
        let mut g = Group::default();
        g.isolate = bits & 1 != 0;
        if bits & 2 != 0 {
            g.opacity = NormalizedF64::new(0.5).unwrap();
        }
        if bits & 4 != 0 {
            g.clip_path = Some(0);
        }
        if bits & 8 != 0 {
            g.mask = Some(0);
        }
        if bits & 16 != 0 {
            g.filters = vec![0];
        }
        if bits & 32 != 0 {
            g.blend_mode = BlendMode::Multiply;
        }
        assert_eq!(g.should_isolate(), bits != 0, "combination {}", bits);
    }
}

#[test]
fn default_group_is_not_isolated() {
    let g = Group::default();
    assert!(!g.should_isolate());
    assert_eq!(g.opacity, NormalizedF64::ONE);
    assert_eq!(g.blend_mode, BlendMode::Normal);
}

#[test]
fn text_reached_only_through_pattern() {
    let mut t = tree();
    let content = t.nodes.len();
    t.nodes.push(Node { parent: None, children: Vec::new(), kind: NodeKind::Group(Group::default()) });
    t.append_kind(content, text());
    t.patterns.push(Pattern {
        id: "p".to_string(),
        units: Units::UserSpaceOnUse,
        content_units: Units::UserSpaceOnUse,
        transform: Transform::default(),
        rect: rect(),
        view_box: None,
        root: content,
    });
    let mut plain = Path::default();
    plain.fill = Some(Fill::default());
    t.append_kind(0, NodeKind::Path(plain));
    assert!(!t.has_text_nodes());
    let mut path = Path::default();
    let pattern = Paint::Pattern(ServerRef { index: 0, units: Units::UserSpaceOnUse });
    path.fill = Some(Fill::from_paint(pattern));
    t.append_kind(0, NodeKind::Path(path));
    assert!(t.has_text_nodes());
}

#[test]
fn text_reached_through_clip_path_and_mask() {
    let mut t = tree();
    let content = t.nodes.len();
    t.nodes.push(Node { parent: None, children: Vec::new(), kind: NodeKind::Group(Group::default()) });
    t.append_kind(content, text());
    t.clip_paths.push(ClipPath {
        id: "c".to_string(),
        units: Units::UserSpaceOnUse,
        transform: Transform::default(),
        clip_path: None,
        root: content,
    });
    t.masks.push(Mask {
        id: "m".to_string(),
        units: Units::UserSpaceOnUse,
        content_units: Units::UserSpaceOnUse,
        rect: rect(),
        mask: None,
        root: content,
    });
    assert!(!t.has_text_nodes());
    let clipped = t.append_kind(0, group_with(|g| g.clip_path = Some(0)));
    assert!(t.has_text_nodes());
    if let NodeKind::Group(g) = &mut t.nodes[clipped].kind {
        g.clip_path = None;
    }
    assert!(!t.has_text_nodes());
    t.append_kind(0, group_with(|g| g.mask = Some(0)));
    assert!(t.has_text_nodes());
}

#[test]
fn direct_text_child_is_found() {
    let mut t = tree();
    let g = t.append_kind(0, NodeKind::Group(Group::default()));
    assert!(!t.has_text_nodes());
    t.append_kind(g, text());
    assert!(t.has_text_nodes());
}

#[test]
fn ancestor_transforms_are_root_first() {
    let mut t = tree();
    if let NodeKind::Group(g) = &mut t.nodes[0].kind {
        g.transform = translate(1.0);
    }
    let a = t.append_kind(0, group_with(|g| g.transform = translate(2.0)));
    let mut p = Path::default();
    p.transform = translate(3.0);
    let leaf = t.append_kind(a, NodeKind::Path(p));
    let ts = t.ancestor_transforms(leaf);
    let shifts: Vec<f64> = ts.iter().map(|t| t.e).collect();
    assert_eq!(shifts, vec![1.0, 2.0, 3.0]);
    assert_eq!(t.ancestors(leaf), vec![leaf, a, 0]);
    let root_only = t.ancestor_transforms(0);
    assert_eq!(root_only.len(), 1);
    assert_eq!(root_only[0], translate(1.0));
}

#[test]
fn node_by_id_finds_content_nodes_only() {
    let mut t = tree();
    let a = t.append_kind(0, group_with(|g| g.id = "a".to_string()));
    let detached = t.nodes.len();
    t.nodes.push(Node { parent: None, children: Vec::new(), kind: group_with(|g| g.id = "b".to_string()) });
    assert_eq!(t.node_by_id("a"), Some(a));
    assert_eq!(t.node_by_id("b"), None);
    assert_eq!(t.node_by_id(""), None);
    assert!(detached > a);
}

#[test]
fn node_by_id_walks_in_pre_order() {
    let mut t = tree();
    let a = t.append_kind(0, NodeKind::Group(Group::default()));
    let b = t.append_kind(0, group_with(|g| g.id = "dup".to_string()));
    let under_a = t.append_kind(a, group_with(|g| g.id = "dup".to_string()));
    assert!(b < under_a);
    assert_eq!(t.node_by_id("dup"), Some(under_a));
    assert!(t.is_well_formed());
    t.root = 99;
    assert!(!t.is_well_formed());
}

#[test]
fn node_kind_id_and_transform() {
    let k = group_with(|g| {
        g.id = "x".to_string();
        g.transform = translate(4.0);
    });
    assert_eq!(k.id(), "x");
    assert_eq!(k.transform(), translate(4.0));
}

#[test]
fn background_start_node() {
    let mut t = tree();
    let bg = t.append_kind(0, group_with(|g| g.enable_background = Some(EnableBackground(None))));
    let mid = t.append_kind(bg, NodeKind::Group(Group::default()));
    let inner = t.append_kind(mid, group_with(|g| g.enable_background = Some(EnableBackground(Some(rect())))));
    let reads = Filter {
        id: "f".to_string(),
        primitives: vec![
            Primitive { inputs: vec![Input::SourceGraphic] },
            Primitive { inputs: vec![Input::SourceAlpha, Input::BackgroundAlpha] },
        ],
    };
    let ignores = Filter {
        id: "g".to_string(),
        primitives: vec![Primitive { inputs: vec![Input::SourceGraphic, Input::Reference("r".to_string())] }],
    };
    assert_eq!(t.filter_background_start_node(mid, &reads), Some(bg));
    assert_eq!(t.filter_background_start_node(inner, &reads), Some(bg));
    assert_eq!(t.filter_background_start_node(bg, &reads), None);
    assert_eq!(t.filter_background_start_node(mid, &ignores), None);
}

#[test]
fn color_constructors() {
    assert_eq!(Color::black(), Color::new_rgb(0, 0, 0));
    assert_eq!(Color::white(), Color { red: 255, green: 255, blue: 255 });
}

#[test]
fn shape_antialiasing() {
    assert!(ShapeRendering::GeometricPrecision.use_shape_antialiasing());
    assert!(!ShapeRendering::CrispEdges.use_shape_antialiasing());
    assert!(!ShapeRendering::OptimizeSpeed.use_shape_antialiasing());
    assert_eq!(ShapeRendering::default(), ShapeRendering::GeometricPrecision);
}

#[test]
fn paint_units() {
    assert_eq!(Paint::Color(Color::black()).units(), None);
    let p = Paint::RadialGradient(ServerRef { index: 3, units: Units::ObjectBoundingBox });
    assert_eq!(p.units(), Some(Units::ObjectBoundingBox));
}

#[test]
fn paint_servers_compare_by_place() {
    let a = Paint::Pattern(ServerRef { index: 0, units: Units::UserSpaceOnUse });
    let b = Paint::Pattern(ServerRef { index: 1, units: Units::UserSpaceOnUse });
    assert_ne!(a, b);
    assert_eq!(a, a);
}

#[test]
fn non_zero_number() {
    assert!(usvg_tree::NonZeroF64::new(num(0.0)).is_none());
    assert!(usvg_tree::NonZeroF64::new(num(-0.0)).is_none());
    assert_eq!(usvg_tree::NonZeroF64::new(num(2.0)).unwrap().value().get(), 2.0);
}

#[test]
fn defaults_of_styles_and_nodes() {
    let s = usvg_tree::Stroke::default();
    assert_eq!(s.paint, Paint::Color(Color::black()));
    assert_eq!(s.width.get(), 1.0);
    assert_eq!(s.miterlimit.get().get(), 4.0);
    assert_eq!(s.opacity, NormalizedF64::ONE);
    assert!(s.dasharray.is_none());
    let f = Fill::default();
    assert_eq!(f.paint, Paint::Color(Color::black()));
    assert_eq!(f.opacity, NormalizedF64::ONE);
    let p = Path::default();
    assert!(p.fill.is_none() && p.stroke.is_none() && p.data.is_empty());
    assert_eq!(p.visibility, usvg_tree::Visibility::Visible);
    assert_eq!(p.paint_order, usvg_tree::PaintOrder::FillAndStroke);
    assert_eq!(usvg_tree::BlendMode::default(), BlendMode::Normal);
    assert_eq!(usvg_tree::SpreadMethod::default(), usvg_tree::SpreadMethod::Pad);
    assert_eq!(usvg_tree::TextRendering::default(), usvg_tree::TextRendering::OptimizeLegibility);
    assert_eq!(usvg_tree::ImageRendering::default(), usvg_tree::ImageRendering::OptimizeQuality);
    assert_eq!(usvg_tree::LineCap::default(), usvg_tree::LineCap::Butt);
    assert_eq!(usvg_tree::LineJoin::default(), usvg_tree::LineJoin::Miter);
    assert_eq!(usvg_tree::FillRule::default(), usvg_tree::FillRule::NonZero);
}

#[test]
fn paint_server_kinds() {
    assert!(usvg_tree::ElementKind::LinearGradient.is_paint_server());
    assert!(usvg_tree::ElementKind::RadialGradient.is_paint_server());
    assert!(usvg_tree::ElementKind::Pattern.is_paint_server());
    assert!(!usvg_tree::ElementKind::Other.is_paint_server());
}
