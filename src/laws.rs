//! Properties of style resolution that hold for every document.
use crate::num::{opacity_of_u8, opacity_product};
use crate::paint::{black_paint, paint_units, Fill, FillRule, Units};
use crate::source::{declarer, lemma_declarer_in_range, first_with_id, AId, Document, ElementKind};
use crate::style::{
    fallback_outcome, fill_paint, reference_fallback, reference_unusable, value_outcome, has_stroke, own_opacity, paint_outcome, parsed_paint,
    resolved_fill, rule_in_effect, stroke_paint, text_attribute, PaintValue, ServerOrColor,
    State,
};
use crate::paint::Paint;
use crate::tree::{
    ancestor_chain, any_reaches_within, any_text_within, reaches_within, scan_successors,
    text_within, NodeKind, Tree,
};
use vstd::prelude::*;

verus! {

/// Outside clip-path content, an element whose nearest declared `fill` does
/// not parse is filled opaque black, under the fill rule in effect, with its
/// own `fill-opacity`.
pub proof fn unparseable_fill_is_black(
    doc: &Document,
    servers: Seq<Option<ServerOrColor>>,
    node: int,
    has_bbox: bool,
    state: State,
)
    requires
        doc.wf(),
        servers.len() == doc.nodes.len(),
        0 <= node < doc.nodes.len(),
        !state.in_clip_path,
        match declarer(doc.nodes@, node, AId::Fill) {
            Some(d) => parsed_paint(text_attribute(doc.nodes@[d as int], AId::Fill).unwrap()@)
                is None,
            None => false,
        },
    ensures
        resolved_fill(doc.nodes@, servers, node, has_bbox, state) == Some(
            Fill {
                paint: black_paint(),
                opacity: opacity_product(
                    opacity_of_u8(255),
                    own_opacity(doc.nodes@[node].fill_opacity),
                ),
                rule: rule_in_effect(doc.nodes@, node, AId::FillRule),
            },
        ),
{
    let d = declarer(doc.nodes@, node, AId::Fill).unwrap();
    assert(doc.nodes@[d as int].spec_has_attribute(AId::Fill)) by {
        lemma_declarer_in_range(doc.nodes@, node, AId::Fill);
    }
}

/// An element with no `stroke` declared at or above it is not stroked.
pub proof fn undeclared_stroke_is_none(
    doc: &Document,
    servers: Seq<Option<ServerOrColor>>,
    node: int,
    has_bbox: bool,
    state: State,
)
    requires
        doc.wf(),
        0 <= node < doc.nodes.len(),
        declarer(doc.nodes@, node, AId::Stroke) is None,
    ensures
        !has_stroke(doc.nodes@, servers, node, has_bbox, state),
        stroke_paint(doc.nodes@, servers, node, has_bbox).0 is None,
{
}

/// A shape without a bounding box whose paint refers to a server in
/// object-bounding-box units is painted as if the reference could not be
/// resolved: with its fallback clause, or where none is written, opaque black
/// for a fill and nothing for a stroke.
pub proof fn bboxless_shape_uses_fallback(
    doc: &Document,
    servers: Seq<Option<ServerOrColor>>,
    node: int,
    aid: AId,
    id: String,
    fallback: Option<crate::style::PaintFallback>,
)
    requires
        doc.wf(),
        servers.len() == doc.nodes.len(),
        0 <= node < doc.nodes.len(),
        aid == AId::Fill || aid == AId::Stroke,
        match declarer(doc.nodes@, node, aid) {
            Some(d) => parsed_paint(text_attribute(doc.nodes@[d as int], aid).unwrap()@) == Some(
                PaintValue::FuncIri(id, fallback),
            ),
            None => false,
        },
        match first_with_id(doc.nodes@, id@) {
            Some(link) => doc.nodes@[link as int].kind != ElementKind::Other && match servers[link as int] {
                Some(ServerOrColor::Server(p)) => paint_units(p) == Some(Units::ObjectBoundingBox),
                _ => false,
            },
            None => false,
        },
    ensures
        ({
            let d = declarer(doc.nodes@, node, aid).unwrap() as int;
            &&& aid == AId::Fill ==> fill_paint(doc.nodes@, servers, node, false)
                == reference_fallback(doc.nodes@, d, aid, fallback, opacity_of_u8(255))
            &&& aid == AId::Stroke ==> stroke_paint(doc.nodes@, servers, node, false)
                == reference_fallback(doc.nodes@, d, aid, fallback, opacity_of_u8(255))
        }),
{
    let d = declarer(doc.nodes@, node, aid).unwrap();
    lemma_declarer_in_range(doc.nodes@, node, aid);
    let op = opacity_of_u8(255);
    let text = text_attribute(doc.nodes@[d as int], aid);
    assert(text is Some);
    let value = PaintValue::FuncIri(id, fallback);
    assert(paint_outcome(doc.nodes@, servers, d as int, aid, false, op) == value_outcome(
        doc.nodes@,
        servers,
        d as int,
        value,
        false,
        op,
    ));
    lemma_server_in_obb_units(doc, servers, d as int, aid, id, fallback, op);
}

/// The chain whose transforms make up a node's absolute transform starts at
/// the node, steps from each node to its parent, and ends at a node without
/// one: it lists every ancestor exactly once. A node without a parent has
/// only its own transform.
pub proof fn ancestor_chain_follows_parents(t: &Tree, i: int)
    requires
        t.wf(),
        0 <= i < t.nodes.len(),
    ensures
        ancestor_chain(t.nodes@, i).len() >= 1,
        ancestor_chain(t.nodes@, i)[0] == i,
        forall|k: int|
            0 <= k < ancestor_chain(t.nodes@, i).len() - 1 ==> t.nodes@[ancestor_chain(
                t.nodes@,
                i,
            )[k] as int].parent == Some(#[trigger] ancestor_chain(t.nodes@, i)[k + 1]),
        t.nodes@[ancestor_chain(t.nodes@, i).last() as int].parent is None,
        t.nodes@[i].parent is None ==> ancestor_chain(t.nodes@, i) == seq![i as usize],
    decreases i,
{
    let c = ancestor_chain(t.nodes@, i);
    // The parent, if any, comes before the node.
    assert(t.nodes@[i].parent matches Some(p) ==> p < i);
    match t.nodes@[i].parent {
        Some(p) => {
            ancestor_chain_follows_parents(t, p as int);
            let rest = ancestor_chain(t.nodes@, p as int);
            assert(c =~= seq![i as usize] + rest);
            assert forall|k: int| 0 <= k < c.len() - 1 implies t.nodes@[c[k] as int].parent == Some(
                #[trigger] c[k + 1],
            ) by {
                if k > 0 {
                    assert(c[k] == rest[k - 1]);
                    assert(c[k + 1] == rest[(k - 1) + 1]);
                    assert(t.nodes@[rest[k - 1] as int].parent == Some(rest[(k - 1) + 1]));
                } else {
                    assert(c[0] == i as usize);
                    assert(c[1] == rest[0]);
                }
            }
            assert(c.last() == rest.last());
        },
        None => {
            assert(c =~= seq![i as usize]);
        },
    }
}

/// A text node that only a pattern can reach still counts: where the root
/// reaches a path, that path fills with a pattern, and text is reachable
/// from the pattern's content, the tree holds text nodes. The two walks,
/// together, must fit in the number of nodes, as every walk without a
/// repeated node does.
pub proof fn text_behind_fill_pattern_is_found(t: &Tree, path: int, to_path: nat, in_pattern: nat)
    requires
        t.wf(),
        0 <= path < t.nodes.len(),
        reaches_within(t, t.root as int, path, to_path),
        in_pattern >= 1,
        to_path + in_pattern <= t.nodes.len(),
        match t.nodes@[path].kind {
            NodeKind::Path(p) => match p.fill {
                Some(f) => match f.paint {
                    Paint::Pattern(r) => text_within(
                        t,
                        t.patterns@[r.index as int].root as int,
                        in_pattern,
                    ),
                    _ => false,
                },
                None => false,
            },
            _ => false,
        },
    ensures
        t.spec_has_text_nodes(),
{
    let pn = t.nodes@[path];
    let pattern = match pn.kind {
        NodeKind::Path(p) => match p.fill.unwrap().paint {
            Paint::Pattern(r) => t.patterns@[r.index as int].root as int,
            _ => 0,
        },
        _ => 0,
    };
    let succ = scan_successors(t, path);
    assert(succ[pn.children.len() as int] == pattern as usize);
    lemma_any_text_member(t, succ, pn.children.len() as int, in_pattern);
    assert(text_within(t, path, in_pattern + 1));
    lemma_reach_text(t, t.root as int, path, to_path, in_pattern + 1);
    lemma_text_monotone(
        t,
        t.root as int,
        (to_path + in_pattern) as nat,
        t.nodes.len() as nat,
    );
}

proof fn lemma_reach_text(t: &Tree, i: int, j: int, d1: nat, d2: nat)
    requires
        reaches_within(t, i, j, d1),
        text_within(t, j, d2),
        d2 >= 1,
    ensures
        text_within(t, i, (d1 + d2 - 1) as nat),
    decreases d1, 0nat, 0nat,
{
    if i == j {
        lemma_text_monotone(t, j, d2, (d1 + d2 - 1) as nat);
    } else if !(t.nodes@[i].kind is Text) {
        lemma_any_reach_text(t, scan_successors(t, i), j, (d1 - 1) as nat, d2);
    }
}

proof fn lemma_any_reach_text(t: &Tree, s: Seq<usize>, j: int, d1: nat, d2: nat)
    requires
        any_reaches_within(t, s, j, d1),
        text_within(t, j, d2),
        d2 >= 1,
    ensures
        any_text_within(t, s, (d1 + d2 - 1) as nat),
    decreases d1, 1nat, s.len(),
{
    if s.len() > 0 {
        if any_reaches_within(t, s.drop_last(), j, d1) {
            lemma_any_reach_text(t, s.drop_last(), j, d1, d2);
        } else {
            lemma_reach_text(t, s.last() as int, j, d1, d2);
        }
    }
}

proof fn lemma_any_text_member(t: &Tree, s: Seq<usize>, k: int, depth: nat)
    requires
        0 <= k < s.len(),
        text_within(t, s[k] as int, depth),
    ensures
        any_text_within(t, s, depth),
    decreases s.len(),
{
    if k < s.len() - 1 {
        assert(s.drop_last()[k] == s[k]);
        lemma_any_text_member(t, s.drop_last(), k, depth);
    }
}

proof fn lemma_text_monotone(t: &Tree, i: int, d: nat, e: nat)
    requires
        d <= e,
        text_within(t, i, d),
    ensures
        text_within(t, i, e),
    decreases d, 0nat, 0nat,
{
    if d > 0 && !(t.nodes@[i].kind is Text) {
        lemma_any_text_monotone(t, scan_successors(t, i), (d - 1) as nat, (e - 1) as nat);
    }
}

proof fn lemma_any_text_monotone(t: &Tree, s: Seq<usize>, d: nat, e: nat)
    requires
        d <= e,
        any_text_within(t, s, d),
    ensures
        any_text_within(t, s, e),
    decreases d, 1nat, s.len(),
{
    if s.len() > 0 {
        if any_text_within(t, s.drop_last(), d) {
            lemma_any_text_monotone(t, s.drop_last(), d, e);
        } else {
            lemma_text_monotone(t, s.last() as int, d, e);
        }
    }
}

proof fn lemma_server_in_obb_units(
    doc: &Document,
    servers: Seq<Option<ServerOrColor>>,
    d: int,
    aid: AId,
    id: String,
    fallback: Option<crate::style::PaintFallback>,
    op: strict_num::NormalizedF64,
)
    requires
        match first_with_id(doc.nodes@, id@) {
            Some(link) => doc.nodes@[link as int].kind != ElementKind::Other && match servers[link as int] {
                Some(ServerOrColor::Server(p)) => paint_units(p) == Some(Units::ObjectBoundingBox),
                _ => false,
            },
            None => false,
        },
    ensures
        value_outcome(doc.nodes@, servers, d, PaintValue::FuncIri(id, fallback), false, op)
            == fallback_outcome(doc.nodes@, d, fallback, op),
        reference_unusable(doc.nodes@, servers, id@, false),
{
}

} // verus!
