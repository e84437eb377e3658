//! The resolved scene graph: nodes in an arena, shared resources in tables
//! of their own, and the queries over both.
use crate::num::{is_full_opacity, opacity_eq, opacity_from_u8, opacity_of_u8};
use crate::paint::{
    BlendMode, Color, Fill, ImageRendering, Paint, PaintOrder, ShapeRendering, SpreadMethod,
    Stroke, Units, Visibility,
};
use strict_num::{FiniteF64, NormalizedF64, PositiveF64};
use svgtypes::{AspectRatio, Transform};
use vstd::prelude::*;

verus! {

#[verifier::external_type_specification]
#[verifier::external_body]
pub struct ExTransform(Transform);

#[verifier::external_type_specification]
#[verifier::external_body]
pub struct ExAspectRatio(AspectRatio);

#[verifier::external_type_specification]
#[verifier::external_body]
pub struct ExPositiveF64(PositiveF64);

/// Relies on the `Default` of `svgtypes::Transform`: the identity.
pub assume_specification[ <Transform as Default>::default ]() -> Transform;

/// Relies on the `Clone` that svgtypes derives beside `Copy`: a copy.
pub assume_specification[ <Transform as Clone>::clone ](t: &Transform) -> (r: Transform)
    ensures
        r == *t,
;

/// Relies on the `Clone` that svgtypes derives beside `Copy`: a copy.
pub assume_specification[ <AspectRatio as Clone>::clone ](a: &AspectRatio) -> (r: AspectRatio)
    ensures
        r == *a,
;

/// Relies on the `Clone` that strict-num derives beside `Copy`: a copy.
pub assume_specification[ <PositiveF64 as Clone>::clone ](v: &PositiveF64) -> (r: PositiveF64)
    ensures
        r == *v,
;

/// A rectangle.
#[derive(Clone, Copy, Debug)]
pub struct Rect {
    pub x: FiniteF64,
    pub y: FiniteF64,
    pub width: FiniteF64,
    pub height: FiniteF64,
}

/// A size.
#[derive(Clone, Copy, Debug)]
pub struct Size {
    pub width: FiniteF64,
    pub height: FiniteF64,
}

/// A view box: a rectangle and how content is fitted into it.
#[derive(Clone, Copy, Debug)]
pub struct ViewBox {
    pub rect: Rect,
    pub aspect: AspectRatio,
}

/// A gradient stop.
#[derive(Clone, Copy, Debug)]
pub struct Stop {
    pub offset: NormalizedF64,
    pub color: Color,
    pub opacity: NormalizedF64,
}

/// What linear and radial gradients share.
#[derive(Clone, Debug)]
pub struct BaseGradient {
    pub units: Units,
    pub transform: Transform,
    pub spread_method: SpreadMethod,
    pub stops: Vec<Stop>,
}

/// A `linearGradient`.
#[derive(Clone, Debug)]
pub struct LinearGradient {
    pub id: String,
    pub x1: FiniteF64,
    pub y1: FiniteF64,
    pub x2: FiniteF64,
    pub y2: FiniteF64,
    pub base: BaseGradient,
}

/// A `radialGradient`.
#[derive(Clone, Debug)]
pub struct RadialGradient {
    pub id: String,
    pub cx: FiniteF64,
    pub cy: FiniteF64,
    pub r: PositiveF64,
    pub fx: FiniteF64,
    pub fy: FiniteF64,
    pub base: BaseGradient,
}

/// A `pattern`; its content is the subtree at `root`, always a group.
#[derive(Clone, Debug)]
pub struct Pattern {
    pub id: String,
    pub units: Units,
    pub content_units: Units,
    pub transform: Transform,
    pub rect: Rect,
    pub view_box: Option<ViewBox>,
    pub root: usize,
}

/// A `clipPath`, optionally clipped itself by another one.
#[derive(Clone, Debug)]
pub struct ClipPath {
    pub id: String,
    pub units: Units,
    pub transform: Transform,
    pub clip_path: Option<usize>,
    pub root: usize,
}

/// A `mask`, optionally masked itself by another one.
#[derive(Clone, Debug)]
pub struct Mask {
    pub id: String,
    pub units: Units,
    pub content_units: Units,
    pub rect: Rect,
    pub mask: Option<usize>,
    pub root: usize,
}

/// An input of a filter primitive.
#[derive(Clone, Debug)]
pub enum Input {
    SourceGraphic,
    SourceAlpha,
    BackgroundImage,
    BackgroundAlpha,
    FillPaint,
    StrokePaint,
    Reference(String),
}

/// A filter primitive, as far as its inputs go.
#[derive(Clone, Debug)]
pub struct Primitive {
    pub inputs: Vec<Input>,
}

/// A `filter`.
#[derive(Clone, Debug)]
pub struct Filter {
    pub id: String,
    pub primitives: Vec<Primitive>,
}

/// An `enable-background` of `new`, with its optional clip rectangle.
#[derive(Clone, Copy, Debug)]
pub struct EnableBackground(pub Option<Rect>);

/// A group container.
#[derive(Clone, Debug)]
pub struct Group {
    pub id: String,
    pub transform: Transform,
    pub opacity: NormalizedF64,
    pub blend_mode: BlendMode,
    pub isolate: bool,
    pub clip_path: Option<usize>,
    pub mask: Option<usize>,
    pub filters: Vec<usize>,
    pub filter_fill: Option<Paint>,
    pub filter_stroke: Option<Paint>,
    pub enable_background: Option<EnableBackground>,
}

impl Group {
    /// Whether the group is drawn apart before it is composited.
    pub open spec fn spec_should_isolate(&self) -> bool {
        self.isolate || !is_full_opacity(self.opacity) || self.clip_path.is_some()
            || self.mask.is_some() || self.filters.len() > 0 || self.blend_mode
            != BlendMode::Normal
    }

    /// Whether the group must be drawn apart before it is composited: it is
    /// isolated, translucent, clipped, masked, filtered or blended.
    pub fn should_isolate(&self) -> (r: bool)
        ensures
            r == self.spec_should_isolate(),
    {
        self.isolate || !opacity_eq(self.opacity, opacity_from_u8(255)) || self.clip_path.is_some()
            || self.mask.is_some() || !self.filters.is_empty() || self.blend_mode
            != BlendMode::Normal
    }
}

impl Default for Group {
    fn default() -> (r: Group)
        ensures
            r.id@.len() == 0,
            r.opacity == opacity_of_u8(255),
            r.blend_mode == BlendMode::Normal,
            !r.isolate,
            r.clip_path.is_none(),
            r.mask.is_none(),
            r.filters@.len() == 0,
            r.filter_fill.is_none(),
            r.filter_stroke.is_none(),
            r.enable_background.is_none(),
            !r.spec_should_isolate(),
    {
        Group {
            id: String::new(),
            transform: Transform::default(),
            opacity: opacity_from_u8(255),
            blend_mode: BlendMode::Normal,
            isolate: false,
            clip_path: None,
            mask: None,
            filters: Vec::new(),
            filter_fill: None,
            filter_stroke: None,
            enable_background: None,
        }
    }
}

/// A path segment, in absolute coordinates.
#[derive(Clone, Copy, Debug)]
pub enum PathSegment {
    MoveTo { x: FiniteF64, y: FiniteF64 },
    LineTo { x: FiniteF64, y: FiniteF64 },
    CurveTo {
        x1: FiniteF64,
        y1: FiniteF64,
        x2: FiniteF64,
        y2: FiniteF64,
        x: FiniteF64,
        y: FiniteF64,
    },
    ClosePath,
}

/// A path.
#[derive(Clone, Debug)]
pub struct Path {
    pub id: String,
    pub transform: Transform,
    pub visibility: Visibility,
    pub fill: Option<Fill>,
    pub stroke: Option<Stroke>,
    pub paint_order: PaintOrder,
    pub rendering_mode: ShapeRendering,
    /// The box of the text this path was made from, where it was.
    pub text_bbox: Option<Rect>,
    pub data: Vec<PathSegment>,
}

impl Default for Path {
    fn default() -> (r: Path)
        ensures
            r.id@.len() == 0,
            r.visibility == Visibility::Visible,
            r.fill.is_none(),
            r.stroke.is_none(),
            r.paint_order == PaintOrder::FillAndStroke,
            r.rendering_mode == ShapeRendering::GeometricPrecision,
            r.text_bbox.is_none(),
            r.data@.len() == 0,
    {
        Path {
            id: String::new(),
            transform: Transform::default(),
            visibility: Visibility::default(),
            fill: None,
            stroke: None,
            paint_order: PaintOrder::default(),
            rendering_mode: ShapeRendering::default(),
            text_bbox: None,
            data: Vec::new(),
        }
    }
}

/// The data of an embedded image.
#[derive(Debug)]
pub enum ImageKind {
    JPEG(Vec<u8>),
    PNG(Vec<u8>),
    GIF(Vec<u8>),
    SVG(Box<Tree>),
}

/// A raster or nested vector image.
#[derive(Debug)]
pub struct Image {
    pub id: String,
    pub transform: Transform,
    pub visibility: Visibility,
    pub view_box: ViewBox,
    pub rendering_mode: ImageRendering,
    pub kind: ImageKind,
}

/// A text element; its layout is not part of this model.
#[derive(Clone, Debug)]
pub struct Text {
    pub id: String,
    pub transform: Transform,
}

/// What a node is.
#[derive(Debug)]
pub enum NodeKind {
    Group(Group),
    Path(Path),
    Image(Image),
    Text(Text),
}

impl NodeKind {
    /// The node's id.
    pub open spec fn spec_id(&self) -> Seq<char> {
        match self {
            NodeKind::Group(e) => e.id@,
            NodeKind::Path(e) => e.id@,
            NodeKind::Image(e) => e.id@,
            NodeKind::Text(e) => e.id@,
        }
    }

    /// The node's own transform.
    pub open spec fn spec_transform(&self) -> Transform {
        match self {
            NodeKind::Group(e) => e.transform,
            NodeKind::Path(e) => e.transform,
            NodeKind::Image(e) => e.transform,
            NodeKind::Text(e) => e.transform,
        }
    }

    /// The node's id.
    pub fn id(&self) -> (r: &str)
        ensures
            r@ == self.spec_id(),
    {
        match self {
            NodeKind::Group(e) => e.id.as_str(),
            NodeKind::Path(e) => e.id.as_str(),
            NodeKind::Image(e) => e.id.as_str(),
            NodeKind::Text(e) => e.id.as_str(),
        }
    }

    /// The node's own transform.
    pub fn transform(&self) -> (r: Transform)
        ensures
            r == self.spec_transform(),
    {
        match self {
            NodeKind::Group(e) => e.transform,
            NodeKind::Path(e) => e.transform,
            NodeKind::Image(e) => e.transform,
            NodeKind::Text(e) => e.transform,
        }
    }
}

/// A node of the arena: its parent, its children in order, and what it is.
#[derive(Debug)]
pub struct Node {
    pub parent: Option<usize>,
    pub children: Vec<usize>,
    pub kind: NodeKind,
}

/// A resolved scene: the node arena, the node its content starts at, and
/// the shared resources that nodes refer to by place.
#[derive(Debug)]
pub struct Tree {
    pub size: Size,
    pub view_box: ViewBox,
    pub root: usize,
    pub nodes: Vec<Node>,
    pub linear_gradients: Vec<LinearGradient>,
    pub radial_gradients: Vec<RadialGradient>,
    pub patterns: Vec<Pattern>,
    pub clip_paths: Vec<ClipPath>,
    pub masks: Vec<Mask>,
    pub filters: Vec<Filter>,
}

/// Whether a paint's pattern, if it is one, is in the pattern table.
pub open spec fn paint_in_tree(t: &Tree, p: Paint) -> bool {
    match p {
        Paint::Pattern(r) => r.index < t.patterns.len(),
        _ => true,
    }
}

/// Whether what a node kind refers to exists in the tree.
pub open spec fn kind_in_tree(t: &Tree, k: NodeKind) -> bool {
    match k {
        NodeKind::Group(g) => {
            &&& match g.clip_path {
                Some(c) => c < t.clip_paths.len(),
                None => true,
            }
            &&& match g.mask {
                Some(m) => m < t.masks.len(),
                None => true,
            }
        },
        NodeKind::Path(p) => {
            &&& match p.fill {
                Some(f) => paint_in_tree(t, f.paint),
                None => true,
            }
            &&& match p.stroke {
                Some(s) => paint_in_tree(t, s.paint),
                None => true,
            }
        },
        _ => true,
    }
}

/// The nodes that a text search goes on to from node `i`: its children,
/// then the content of its clip path and mask, or of the patterns its fill
/// and stroke paint with.
pub open spec fn scan_successors(t: &Tree, i: int) -> Seq<usize> {
    t.nodes@[i].children@ + resource_roots(t, t.nodes@[i].kind)
}

/// The content roots of the clip path and mask of a group, or of the
/// patterns that a path's fill and stroke paint with.
pub open spec fn resource_roots(t: &Tree, k: NodeKind) -> Seq<usize> {
    match k {
        NodeKind::Group(g) => optional_root(
            match g.clip_path {
                Some(c) => Some(t.clip_paths@[c as int].root),
                None => None,
            },
        ) + optional_root(
            match g.mask {
                Some(m) => Some(t.masks@[m as int].root),
                None => None,
            },
        ),
        NodeKind::Path(p) => fill_pattern_root(t, p.fill) + stroke_pattern_root(t, p.stroke),
        _ => Seq::empty(),
    }
}

/// One root, or none.
pub open spec fn optional_root(r: Option<usize>) -> Seq<usize> {
    match r {
        Some(x) => seq![x],
        None => Seq::empty(),
    }
}

/// The content root of the pattern a fill paints with, if it does.
pub open spec fn fill_pattern_root(t: &Tree, f: Option<Fill>) -> Seq<usize> {
    match f {
        Some(f) => pattern_root(t, f.paint),
        None => Seq::empty(),
    }
}

/// The content root of the pattern a stroke paints with, if it does.
pub open spec fn stroke_pattern_root(t: &Tree, s: Option<Stroke>) -> Seq<usize> {
    match s {
        Some(s) => pattern_root(t, s.paint),
        None => Seq::empty(),
    }
}

/// The content root of a pattern paint, or nothing.
pub open spec fn pattern_root(t: &Tree, p: Paint) -> Seq<usize> {
    match p {
        Paint::Pattern(r) => seq![t.patterns@[r.index as int].root],
        _ => Seq::empty(),
    }
}

/// Whether a text node is reachable from node `i` within `depth` steps,
/// node `i` itself being the first.
pub open spec fn text_within(t: &Tree, i: int, depth: nat) -> bool
    decreases depth, 0nat,
{
    if depth == 0 {
        false
    } else if t.nodes@[i].kind is Text {
        true
    } else {
        any_text_within(t, scan_successors(t, i), (depth - 1) as nat)
    }
}

/// Whether a text node is reachable within `depth` steps from one of `s`.
pub open spec fn any_text_within(t: &Tree, s: Seq<usize>, depth: nat) -> bool
    decreases depth, s.len() + 1,
{
    if s.len() == 0 {
        false
    } else {
        any_text_within(t, s.drop_last(), depth) || text_within(t, s.last() as int, depth)
    }
}

proof fn lemma_any_text_prefix(t: &Tree, s: Seq<usize>, k: int, depth: nat)
    requires
        0 <= k <= s.len(),
        any_text_within(t, s.subrange(0, k), depth),
    ensures
        any_text_within(t, s, depth),
    decreases s.len() - k,
{
    if k < s.len() {
        assert(s.subrange(0, k + 1).drop_last() =~= s.subrange(0, k));
        lemma_any_text_prefix(t, s, k + 1, depth);
    } else {
        assert(s.subrange(0, k) =~= s);
    }
}

/// Whether node `j` is reachable from node `i` by a walk of at most `depth`
/// nodes, `i` included, that goes as a text search does.
pub open spec fn reaches_within(t: &Tree, i: int, j: int, depth: nat) -> bool
    decreases depth, 0nat,
{
    if depth == 0 {
        false
    } else if i == j {
        true
    } else {
        any_reaches_within(t, scan_successors(t, i), j, (depth - 1) as nat)
    }
}

/// Whether node `j` is reachable within `depth` nodes from one of `s`.
pub open spec fn any_reaches_within(t: &Tree, s: Seq<usize>, j: int, depth: nat) -> bool
    decreases depth, s.len() + 1,
{
    if s.len() == 0 {
        false
    } else {
        any_reaches_within(t, s.drop_last(), j, depth) || reaches_within(t, s.last() as int, j, depth)
    }
}

/// The subtree of node `i` in pre-order: the node, then the subtree of each
/// child in turn.
pub open spec fn preorder(nodes: Seq<Node>, i: int) -> Seq<usize>
    decreases nodes.len() - i, 1int, 0int,
{
    if 0 <= i < nodes.len() {
        seq![i as usize] + preorder_children(nodes, i, nodes[i].children@.len() as int)
    } else {
        Seq::empty()
    }
}

/// The subtrees of the first `k` children of node `i`, in pre-order.
pub open spec fn preorder_children(nodes: Seq<Node>, i: int, k: int) -> Seq<usize>
    decreases nodes.len() - i, 0int, k,
{
    if 0 <= i < nodes.len() && 0 < k <= nodes[i].children@.len() {
        let c = nodes[i].children@[k - 1] as int;
        preorder_children(nodes, i, k - 1) + if i < c < nodes.len() {
            preorder(nodes, c)
        } else {
            Seq::empty()
        }
    } else {
        Seq::empty()
    }
}

/// The first node of `s` whose id is `id`.
pub open spec fn first_with_node_id(nodes: Seq<Node>, s: Seq<usize>, id: Seq<char>) -> Option<usize>
    decreases s.len(),
{
    if s.len() == 0 {
        None
    } else if nodes[s[0] as int].kind.spec_id() == id {
        Some(s[0])
    } else {
        first_with_node_id(nodes, s.drop_first(), id)
    }
}

proof fn lemma_first_concat(nodes: Seq<Node>, a: Seq<usize>, b: Seq<usize>, id: Seq<char>)
    ensures
        first_with_node_id(nodes, a + b, id) == match first_with_node_id(nodes, a, id) {
            Some(x) => Some(x),
            None => first_with_node_id(nodes, b, id),
        },
    decreases a.len(),
{
    if a.len() == 0 {
        assert(a + b =~= b);
    } else {
        assert((a + b).drop_first() =~= a.drop_first() + b);
        lemma_first_concat(nodes, a.drop_first(), b, id);
    }
}

proof fn lemma_first_children_prefix(nodes: Seq<Node>, i: int, k: int, n: int, id: Seq<char>)
    requires
        0 <= i < nodes.len(),
        0 <= k <= n <= nodes[i].children@.len(),
        first_with_node_id(nodes, preorder_children(nodes, i, k), id) is Some,
    ensures
        first_with_node_id(nodes, preorder_children(nodes, i, n), id) == first_with_node_id(
            nodes,
            preorder_children(nodes, i, k),
            id,
        ),
    decreases n - k,
{
    if k < n {
        lemma_first_children_prefix(nodes, i, k, n - 1, id);
        let c = nodes[i].children@[n - 1] as int;
        lemma_first_concat(
            nodes,
            preorder_children(nodes, i, n - 1),
            if i < c < nodes.len() {
                preorder(nodes, c)
            } else {
                Seq::empty()
            },
            id,
        );
    }
}

/// Node `i` and its ancestors, itself first and the root last.
pub open spec fn ancestor_chain(nodes: Seq<Node>, i: int) -> Seq<usize>
    decreases i,
{
    if i < 0 || i >= nodes.len() {
        Seq::empty()
    } else {
        match nodes[i].parent {
            Some(p) => if p < i {
                seq![i as usize] + ancestor_chain(nodes, p as int)
            } else {
                seq![i as usize]
            },
            None => seq![i as usize],
        }
    }
}

/// The nearest strict ancestor of node `i` that is a group with
/// `enable-background` set.
pub open spec fn background_ancestor(nodes: Seq<Node>, i: int) -> Option<usize>
    decreases i,
{
    if i < 0 || i >= nodes.len() {
        None
    } else {
        match nodes[i].parent {
            Some(p) => if p < i {
                if has_enable_background(nodes[p as int].kind) {
                    Some(p)
                } else {
                    background_ancestor(nodes, p as int)
                }
            } else {
                None
            },
            None => None,
        }
    }
}

/// Whether a node is a group with `enable-background` set.
pub open spec fn has_enable_background(k: NodeKind) -> bool {
    match k {
        NodeKind::Group(g) => g.enable_background.is_some(),
        _ => false,
    }
}

/// Whether a filter reads the background image or its alpha.
pub open spec fn uses_background(f: &Filter) -> bool {
    exists|p: int, k: int|
        0 <= p < f.primitives.len() && 0 <= k < f.primitives@[p].inputs.len() && (
        #[trigger] f.primitives@[p].inputs@[k] is BackgroundImage
            || f.primitives@[p].inputs@[k] is BackgroundAlpha)
}

impl Tree {
    /// The arena is well formed: the root and every reference are in range,
    /// parents come before their nodes and children after.
    pub open spec fn wf(&self) -> bool {
        &&& self.root < self.nodes.len()
        &&& forall|i: int|
            #![trigger self.nodes@[i]]
            0 <= i < self.nodes.len() ==> {
                &&& match self.nodes@[i].parent {
                    Some(p) => p < i,
                    None => true,
                }
                &&& forall|k: int|
                    0 <= k < self.nodes@[i].children.len() ==> i
                        < #[trigger] self.nodes@[i].children@[k] < self.nodes.len()
                &&& kind_in_tree(self, self.nodes@[i].kind)
            }
        &&& forall|c: int|
            0 <= c < self.clip_paths.len() ==> #[trigger] self.clip_paths@[c].root
                < self.nodes.len()
        &&& forall|m: int|
            0 <= m < self.masks.len() ==> #[trigger] self.masks@[m].root < self.nodes.len()
        &&& forall|q: int|
            0 <= q < self.patterns.len() ==> #[trigger] self.patterns@[q].root
                < self.nodes.len()
    }

    /// Whether a text node is reachable from the content root, through
    /// children and through clip paths, masks and patterns.
    pub open spec fn spec_has_text_nodes(&self) -> bool {
        text_within(self, self.root as int, self.nodes.len() as nat)
    }

    fn scan_successors(&self, i: usize) -> (r: Vec<usize>)
        requires
            self.wf(),
            i < self.nodes.len(),
        ensures
            r@ == scan_successors(self, i as int),
            forall|k: int| 0 <= k < r.len() ==> #[trigger] r@[k] < self.nodes.len(),
    {
        let node = &self.nodes[i];
        let mut out: Vec<usize> = Vec::new();
        let mut k: usize = 0;
        while k < node.children.len()
            invariant
                k <= node.children.len(),
                out@ =~= node.children@.subrange(0, k as int),
            decreases node.children.len() - k,
        {
            out.push(node.children[k]);
            k = k + 1;
        }
        let ghost base = out@;
        assert(base =~= node.children@);
        match &node.kind {
            NodeKind::Group(g) => {
                if let Some(c) = g.clip_path {
                    out.push(self.clip_paths[c].root);
                }
                if let Some(m) = g.mask {
                    out.push(self.masks[m].root);
                }
                assert(out@ =~= scan_successors(self, i as int));
            },
            NodeKind::Path(p) => {
                if let Some(f) = &p.fill {
                    if let Paint::Pattern(r) = f.paint {
                        out.push(self.patterns[r.index].root);
                    }
                }
                if let Some(s) = &p.stroke {
                    if let Paint::Pattern(r) = s.paint {
                        out.push(self.patterns[r.index].root);
                    }
                }
                assert(out@ =~= scan_successors(self, i as int));
            },
            _ => {
                assert(out@ =~= scan_successors(self, i as int));
            },
        }
        out
    }

    fn scan_for_text(&self, i: usize, depth: usize) -> (r: bool)
        requires
            self.wf(),
            i < self.nodes.len(),
        ensures
            r == text_within(self, i as int, depth as nat),
        decreases depth,
    {
        if depth == 0 {
            return false;
        }
        if let NodeKind::Text(_) = self.nodes[i].kind {
            return true;
        }
        let next = self.scan_successors(i);
        let mut k: usize = 0;
        while k < next.len()
            invariant
                self.wf(),
                depth > 0,
                i < self.nodes.len(),
                !(self.nodes@[i as int].kind is Text),
                next@ == scan_successors(self, i as int),
                forall|j: int| 0 <= j < next.len() ==> #[trigger] next@[j] < self.nodes.len(),
                k <= next.len(),
                !any_text_within(self, next@.subrange(0, k as int), (depth - 1) as nat),
            decreases next.len() - k,
        {
            let ghost before = next@.subrange(0, k as int);
            assert(next@.subrange(0, k + 1).drop_last() =~= before);
            if self.scan_for_text(next[k], depth - 1) {
                proof {
                    assert(next@.subrange(0, k + 1).last() == next@[k as int]);
                    lemma_any_text_prefix(self, next@, k + 1, (depth - 1) as nat);
                }
                return true;
            }
            k = k + 1;
        }
        assert(next@.subrange(0, next.len() as int) =~= next@);
        false
    }

    /// Whether the tree holds a text node: in the content, or in a clip
    /// path, mask or pattern that the content uses.
    pub fn has_text_nodes(&self) -> (r: bool)
        requires
            self.wf(),
        ensures
            r == self.spec_has_text_nodes(),
    {
        self.scan_for_text(self.root, self.nodes.len())
    }
}

impl NodeKind {
    fn id_text(&self) -> (r: &String)
        ensures
            r@ == self.spec_id(),
    {
        match self {
            NodeKind::Group(e) => &e.id,
            NodeKind::Path(e) => &e.id,
            NodeKind::Image(e) => &e.id,
            NodeKind::Text(e) => &e.id,
        }
    }
}

impl Tree {
    fn find_in_subtree(&self, i: usize, key: &String) -> (r: Option<usize>)
        requires
            self.wf(),
            i < self.nodes.len(),
        ensures
            r == first_with_node_id(self.nodes@, preorder(self.nodes@, i as int), key@),
        decreases self.nodes.len() - i,
    {
        let ghost nodes = self.nodes@;
        let ghost rest = preorder_children(nodes, i as int, nodes[i as int].children@.len() as int);
        proof {
            lemma_first_concat(nodes, seq![i], rest, key@);
            assert((seq![i] + rest).drop_first() =~= rest);
        }
        if *self.nodes[i].kind.id_text() == *key {
            return Some(i);
        }
        let children = &self.nodes[i].children;
        let mut k: usize = 0;
        while k < children.len()
            invariant
                self.wf(),
                nodes == self.nodes@,
                i < self.nodes.len(),
                *children == self.nodes@[i as int].children,
                k <= children.len(),
                rest == preorder_children(nodes, i as int, children@.len() as int),
                first_with_node_id(nodes, preorder(nodes, i as int), key@) == first_with_node_id(
                    nodes,
                    rest,
                    key@,
                ),
                first_with_node_id(nodes, preorder_children(nodes, i as int, k as int), key@) is None,
            decreases children.len() - k,
        {
            let c = children[k];
            assert(self.nodes@[i as int].children@[k as int] == c);
            let r = self.find_in_subtree(c, key);
            proof {
                lemma_first_concat(
                    nodes,
                    preorder_children(nodes, i as int, k as int),
                    preorder(nodes, c as int),
                    key@,
                );
            }
            if r.is_some() {
                proof {
                    lemma_first_children_prefix(
                        nodes,
                        i as int,
                        k + 1,
                        children@.len() as int,
                        key@,
                    );
                }
                return r;
            }
            k = k + 1;
        }
        None
    }

    /// The first node with id `id` in a pre-order walk of the content from
    /// the root; never a node for the empty id.
    pub fn node_by_id(&self, id: &str) -> (r: Option<usize>)
        requires
            self.wf(),
        ensures
            id@.len() == 0 ==> r.is_none(),
            id@.len() != 0 ==> r == first_with_node_id(
                self.nodes@,
                preorder(self.nodes@, self.root as int),
                id@,
            ),
    {
        if id.is_empty() {
            return None;
        }
        let key = id.to_owned();
        self.find_in_subtree(self.root, &key)
    }

    /// Node `node` and its ancestors, itself first and the root last.
    pub fn ancestors(&self, node: usize) -> (r: Vec<usize>)
        requires
            self.wf(),
            node < self.nodes.len(),
        ensures
            r@ == ancestor_chain(self.nodes@, node as int),
    {
        let mut out: Vec<usize> = Vec::new();
        let mut cur = node;
        loop
            invariant
                self.wf(),
                cur < self.nodes.len(),
                out@ + ancestor_chain(self.nodes@, cur as int) == ancestor_chain(
                    self.nodes@,
                    node as int,
                ),
            decreases cur,
        {
            let ghost before = out@;
            out.push(cur);
            match self.nodes[cur].parent {
                Some(p) => {
                    assert(self.nodes@[cur as int].parent == Some(p));
                    assert(out@ + ancestor_chain(self.nodes@, p as int) =~= before
                        + ancestor_chain(self.nodes@, cur as int));
                    cur = p;
                },
                None => {
                    assert(out@ =~= before + ancestor_chain(self.nodes@, cur as int));
                    return out;
                },
            }
        }
    }

    /// The own transforms of node `node` and its ancestors, root first: the
    /// node's absolute transform is their composition in this order.
    pub fn ancestor_transforms(&self, node: usize) -> (r: Vec<Transform>)
        requires
            self.wf(),
            node < self.nodes.len(),
        ensures
            r@.len() == ancestor_chain(self.nodes@, node as int).len(),
            forall|k: int|
                #![trigger r@[k]]
                0 <= k < r@.len() ==> r@[k] == self.nodes@[ancestor_chain(
                    self.nodes@,
                    node as int,
                )[r@.len() - 1 - k] as int].kind.spec_transform(),
    {
        let chain = self.ancestors(node);
        proof {
            lemma_chain_in_range(self, node as int);
        }
        let mut out: Vec<Transform> = Vec::new();
        let mut k: usize = chain.len();
        while k > 0
            invariant
                self.wf(),
                chain@ == ancestor_chain(self.nodes@, node as int),
                forall|j: int| 0 <= j < chain.len() ==> #[trigger] chain@[j] < self.nodes.len(),
                k <= chain.len(),
                out@.len() == chain.len() - k,
                forall|j: int|
                    #![trigger out@[j]]
                    0 <= j < out@.len() ==> out@[j] == self.nodes@[chain@[chain.len() - 1
                        - j] as int].kind.spec_transform(),
            decreases k,
        {
            k = k - 1;
            out.push(self.nodes[chain[k]].kind.transform());
        }
        out
    }

    /// The node from which a filter on node `node` draws its background:
    /// where the filter reads the background image or its alpha, the nearest
    /// strict ancestor that is a group with `enable-background` set.
    pub fn filter_background_start_node(&self, node: usize, filter: &Filter) -> (r: Option<usize>)
        requires
            self.wf(),
            node < self.nodes.len(),
        ensures
            r == (if uses_background(filter) {
                background_ancestor(self.nodes@, node as int)
            } else {
                None
            }),
    {
        if !filter_uses_background(filter) {
            return None;
        }
        let mut cur = node;
        loop
            invariant
                self.wf(),
                uses_background(filter),
                cur < self.nodes.len(),
                background_ancestor(self.nodes@, cur as int) == background_ancestor(
                    self.nodes@,
                    node as int,
                ),
            decreases cur,
        {
            match self.nodes[cur].parent {
                Some(p) => {
                    assert(self.nodes@[cur as int].parent == Some(p));
                    let enabled = match &self.nodes[p].kind {
                        NodeKind::Group(g) => g.enable_background.is_some(),
                        _ => false,
                    };
                    assert(enabled == has_enable_background(self.nodes@[p as int].kind));
                    if enabled {
                        return Some(p);
                    }
                    cur = p;
                },
                None => {
                    return None;
                },
            }
        }
    }
}

/// Whether some input of `inputs` is the background image or its alpha.
pub open spec fn reads_background(inputs: Seq<Input>) -> bool {
    exists|k: int|
        0 <= k < inputs.len() && (#[trigger] inputs[k] is BackgroundImage
            || inputs[k] is BackgroundAlpha)
}

fn inputs_read_background(inputs: &Vec<Input>) -> (r: bool)
    ensures
        r == reads_background(inputs@),
{
    let mut k: usize = 0;
    while k < inputs.len()
        invariant
            k <= inputs.len(),
            forall|j: int|
                0 <= j < k ==> !(#[trigger] inputs@[j] is BackgroundImage
                    || inputs@[j] is BackgroundAlpha),
        decreases inputs.len() - k,
    {
        match &inputs[k] {
            Input::BackgroundImage | Input::BackgroundAlpha => {
                return true;
            },
            _ => {},
        }
        k = k + 1;
    }
    false
}

fn filter_uses_background(filter: &Filter) -> (r: bool)
    ensures
        r == uses_background(filter),
{
    let mut p: usize = 0;
    while p < filter.primitives.len()
        invariant
            p <= filter.primitives.len(),
            forall|q: int| 0 <= q < p ==> !reads_background(#[trigger] filter.primitives@[q].inputs@),
        decreases filter.primitives.len() - p,
    {
        if inputs_read_background(&filter.primitives[p].inputs) {
            return true;
        }
        p = p + 1;
    }
    assert forall|q: int, k: int|
        0 <= q < filter.primitives.len() && 0 <= k < filter.primitives@[q].inputs.len() implies !(
        #[trigger] filter.primitives@[q].inputs@[k] is BackgroundImage
            || filter.primitives@[q].inputs@[k] is BackgroundAlpha) by {
        assert(!reads_background(filter.primitives@[q].inputs@));
    }
    false
}

proof fn lemma_chain_in_range(t: &Tree, i: int)
    requires
        t.wf(),
        0 <= i < t.nodes.len(),
    ensures
        forall|j: int|
            0 <= j < ancestor_chain(t.nodes@, i).len() ==> #[trigger] ancestor_chain(
                t.nodes@,
                i,
            )[j] < t.nodes.len(),
    decreases i,
{
    let c = ancestor_chain(t.nodes@, i);
    // The parent, if any, comes before the node.
    assert(t.nodes@[i].parent matches Some(p) ==> p < i);
    if let Some(p) = t.nodes@[i].parent {
        lemma_chain_in_range(t, p as int);
        assert(c =~= seq![i as usize] + ancestor_chain(t.nodes@, p as int));
        assert forall|j: int| 0 <= j < c.len() implies #[trigger] c[j] < t.nodes.len() by {
            if j > 0 {
                assert(c[j] == ancestor_chain(t.nodes@, p as int)[j - 1]);
            }
        }
    } else {
        assert(c =~= seq![i as usize]);
    }
}

impl Tree {
    /// Adds a node of `kind` as the last child of `parent`, and returns its place.
    pub fn append_kind(&mut self, parent: usize, kind: NodeKind) -> (r: usize)
        requires
            old(self).wf(),
            parent < old(self).nodes.len(),
            old(self).nodes.len() < usize::MAX,
            kind_in_tree(old(self), kind),
        ensures
            final(self).wf(),
            r == old(self).nodes.len(),
            final(self).nodes@.len() == old(self).nodes@.len() + 1,
            final(self).nodes@[r as int].parent == Some(parent),
            final(self).nodes@[r as int].children@.len() == 0,
            final(self).nodes@[r as int].kind == kind,
            final(self).nodes@[parent as int].children@ == old(self).nodes@[parent as int].children@.push(r),
            final(self).nodes@[parent as int].parent == old(self).nodes@[parent as int].parent,
            final(self).nodes@[parent as int].kind == old(self).nodes@[parent as int].kind,
            forall|i: int|
                0 <= i < old(self).nodes.len() && i != parent ==> #[trigger] final(self).nodes@[i]
                    == old(self).nodes@[i],
            final(self).root == old(self).root,
            final(self).patterns@ == old(self).patterns@,
            final(self).clip_paths@ == old(self).clip_paths@,
            final(self).masks@ == old(self).masks@,
            final(self).filters@ == old(self).filters@,
            final(self).linear_gradients@ == old(self).linear_gradients@,
            final(self).radial_gradients@ == old(self).radial_gradients@,
    {
        let ghost before = self.nodes@;
        let idx = self.nodes.len();
        let mut p = self.nodes.remove(parent);
        p.children.push(idx);
        self.nodes.insert(parent, p);
        assert(self.nodes@ =~= before.update(parent as int, self.nodes@[parent as int]));
        self.nodes.push(Node { parent: Some(parent), children: Vec::new(), kind });
        assert forall|i: int|
            #![trigger self.nodes@[i]]
            0 <= i < self.nodes.len() implies {
            &&& match self.nodes@[i].parent {
                Some(q) => q < i,
                None => true,
            }
            &&& forall|k: int|
                0 <= k < self.nodes@[i].children.len() ==> i
                    < #[trigger] self.nodes@[i].children@[k] < self.nodes.len()
            &&& kind_in_tree(self, self.nodes@[i].kind)
        } by {
            if i < idx {
                if i == parent as int {
                    assert forall|k: int|
                        0 <= k < self.nodes@[i].children.len() implies i
                            < #[trigger] self.nodes@[i].children@[k] < self.nodes.len() by {
                        if k < before[i].children.len() {
                            assert(self.nodes@[i].children@[k] == before[i].children@[k]);
                        }
                    }
                }
            }
        }
        idx
    }
}

impl Tree {
    fn paint_is_in_tree(&self, p: &Paint) -> (r: bool)
        ensures
            r == paint_in_tree(self, *p),
    {
        match p {
            Paint::Pattern(r) => r.index < self.patterns.len(),
            _ => true,
        }
    }

    fn kind_is_in_tree(&self, k: &NodeKind) -> (r: bool)
        ensures
            r == kind_in_tree(self, *k),
    {
        match k {
            NodeKind::Group(g) => {
                let clip_ok = match g.clip_path {
                    Some(c) => c < self.clip_paths.len(),
                    None => true,
                };
                let mask_ok = match g.mask {
                    Some(m) => m < self.masks.len(),
                    None => true,
                };
                clip_ok && mask_ok
            },
            NodeKind::Path(p) => {
                let fill_ok = match &p.fill {
                    Some(f) => self.paint_is_in_tree(&f.paint),
                    None => true,
                };
                let stroke_ok = match &p.stroke {
                    Some(s) => self.paint_is_in_tree(&s.paint),
                    None => true,
                };
                fill_ok && stroke_ok
            },
            _ => true,
        }
    }

    fn node_is_well_formed(&self, i: usize) -> (r: bool)
        requires
            i < self.nodes.len(),
        ensures
            r == {
                &&& match self.nodes@[i as int].parent {
                    Some(p) => p < i,
                    None => true,
                }
                &&& forall|k: int|
                    0 <= k < self.nodes@[i as int].children.len() ==> i
                        < #[trigger] self.nodes@[i as int].children@[k] < self.nodes.len()
                &&& kind_in_tree(self, self.nodes@[i as int].kind)
            },
    {
        let n = &self.nodes[i];
        let parent_ok = match n.parent {
            Some(p) => p < i,
            None => true,
        };
        if !parent_ok {
            return false;
        }
        let mut k: usize = 0;
        while k < n.children.len()
            invariant
                i < self.nodes.len(),
                *n == self.nodes@[i as int],
                k <= n.children.len(),
                forall|j: int|
                    0 <= j < k ==> i < #[trigger] n.children@[j] < self.nodes.len(),
            decreases n.children.len() - k,
        {
            let c = n.children[k];
            if !(i < c && c < self.nodes.len()) {
                return false;
            }
            k = k + 1;
        }
        self.kind_is_in_tree(&n.kind)
    }

    /// Whether the tree is well formed, as `wf` states it: callers that are
    /// not verified test this before they call the library.
    pub fn is_well_formed(&self) -> (r: bool)
        ensures
            r == self.wf(),
    {
        if self.root >= self.nodes.len() {
            return false;
        }
        let mut i: usize = 0;
        while i < self.nodes.len()
            invariant
                self.root < self.nodes.len(),
                i <= self.nodes.len(),
                forall|j: int|
                    #![trigger self.nodes@[j]]
                    0 <= j < i ==> {
                        &&& match self.nodes@[j].parent {
                            Some(p) => p < j,
                            None => true,
                        }
                        &&& forall|k: int|
                            0 <= k < self.nodes@[j].children.len() ==> j
                                < #[trigger] self.nodes@[j].children@[k] < self.nodes.len()
                        &&& kind_in_tree(self, self.nodes@[j].kind)
                    },
            decreases self.nodes.len() - i,
        {
            if !self.node_is_well_formed(i) {
                return false;
            }
            i = i + 1;
        }
        let mut c: usize = 0;
        while c < self.clip_paths.len()
            invariant
                c <= self.clip_paths.len(),
                forall|j: int| 0 <= j < c ==> #[trigger] self.clip_paths@[j].root < self.nodes.len(),
            decreases self.clip_paths.len() - c,
        {
            if self.clip_paths[c].root >= self.nodes.len() {
                return false;
            }
            c = c + 1;
        }
        let mut m: usize = 0;
        while m < self.masks.len()
            invariant
                m <= self.masks.len(),
                forall|j: int| 0 <= j < m ==> #[trigger] self.masks@[j].root < self.nodes.len(),
            decreases self.masks.len() - m,
        {
            if self.masks[m].root >= self.nodes.len() {
                return false;
            }
            m = m + 1;
        }
        let mut q: usize = 0;
        while q < self.patterns.len()
            invariant
                q <= self.patterns.len(),
                forall|j: int| 0 <= j < q ==> #[trigger] self.patterns@[j].root < self.nodes.len(),
            decreases self.patterns.len() - q,
        {
            if self.patterns[q].root >= self.nodes.len() {
                return false;
            }
            q = q + 1;
        }
        true
    }
}

} // verus!
