//! The source document that style resolution reads: elements in document
//! order, each with its parent and the presentation attributes it sets itself.
use strict_num::{FiniteF64, NormalizedF64};
use vstd::prelude::*;

verus! {

/// The presentation attributes that style resolution reads.
#[derive(Clone, Copy, PartialEq, Eq, Debug, Structural)]
pub enum AId {
    Fill,
    Stroke,
    Color,
    ClipRule,
    FillRule,
    FillOpacity,
    StrokeOpacity,
    StrokeWidth,
    StrokeMiterlimit,
    StrokeDasharray,
    StrokeDashoffset,
    StrokeLinecap,
    StrokeLinejoin,
}

/// An element's kind, as far as paint references care.
#[derive(Clone, Copy, PartialEq, Eq, Debug, Structural)]
pub enum ElementKind {
    LinearGradient,
    RadialGradient,
    Pattern,
    Other,
}

impl ElementKind {
    /// Whether an element of this kind can serve as a paint.
    pub fn is_paint_server(self) -> (r: bool)
        ensures
            r == (self != ElementKind::Other),
    {
        match self {
            ElementKind::Other => false,
            _ => true,
        }
    }
}

/// A color as the document writes it, alpha included.
#[derive(Clone, Copy, PartialEq, Eq, Debug, Structural)]
pub struct SvgColor {
    pub red: u8,
    pub green: u8,
    pub blue: u8,
    pub alpha: u8,
}

impl SvgColor {
    /// Opaque black.
    pub open spec fn spec_black() -> SvgColor {
        SvgColor { red: 0, green: 0, blue: 0, alpha: 255 }
    }

    /// Opaque black.
    pub fn black() -> (r: SvgColor)
        ensures
            r == Self::spec_black(),
    {
        SvgColor { red: 0, green: 0, blue: 0, alpha: 255 }
    }
}

/// One element of the source document.
///
/// Each attribute field is `Some` exactly where the element sets that
/// attribute itself; lengths are already in user units.
#[derive(Clone, Debug)]
pub struct SourceNode {
    pub parent: Option<usize>,
    pub kind: ElementKind,
    pub id: String,
    pub fill: Option<String>,
    pub stroke: Option<String>,
    pub color: Option<SvgColor>,
    pub clip_rule: Option<String>,
    pub fill_rule: Option<String>,
    pub fill_opacity: Option<NormalizedF64>,
    pub stroke_opacity: Option<NormalizedF64>,
    pub stroke_width: Option<FiniteF64>,
    pub stroke_miterlimit: Option<FiniteF64>,
    pub stroke_dasharray: Option<Vec<FiniteF64>>,
    pub stroke_dashoffset: Option<FiniteF64>,
    pub stroke_linecap: Option<String>,
    pub stroke_linejoin: Option<String>,
}

impl SourceNode {
    /// Whether the element sets `aid` itself.
    pub open spec fn spec_has_attribute(&self, aid: AId) -> bool {
        match aid {
            AId::Fill => self.fill.is_some(),
            AId::Stroke => self.stroke.is_some(),
            AId::Color => self.color.is_some(),
            AId::ClipRule => self.clip_rule.is_some(),
            AId::FillRule => self.fill_rule.is_some(),
            AId::FillOpacity => self.fill_opacity.is_some(),
            AId::StrokeOpacity => self.stroke_opacity.is_some(),
            AId::StrokeWidth => self.stroke_width.is_some(),
            AId::StrokeMiterlimit => self.stroke_miterlimit.is_some(),
            AId::StrokeDasharray => self.stroke_dasharray.is_some(),
            AId::StrokeDashoffset => self.stroke_dashoffset.is_some(),
            AId::StrokeLinecap => self.stroke_linecap.is_some(),
            AId::StrokeLinejoin => self.stroke_linejoin.is_some(),
        }
    }

    /// Whether the element sets `aid` itself.
    pub fn has_attribute(&self, aid: AId) -> (r: bool)
        ensures
            r == self.spec_has_attribute(aid),
    {
        match aid {
            AId::Fill => self.fill.is_some(),
            AId::Stroke => self.stroke.is_some(),
            AId::Color => self.color.is_some(),
            AId::ClipRule => self.clip_rule.is_some(),
            AId::FillRule => self.fill_rule.is_some(),
            AId::FillOpacity => self.fill_opacity.is_some(),
            AId::StrokeOpacity => self.stroke_opacity.is_some(),
            AId::StrokeWidth => self.stroke_width.is_some(),
            AId::StrokeMiterlimit => self.stroke_miterlimit.is_some(),
            AId::StrokeDasharray => self.stroke_dasharray.is_some(),
            AId::StrokeDashoffset => self.stroke_dashoffset.is_some(),
            AId::StrokeLinecap => self.stroke_linecap.is_some(),
            AId::StrokeLinejoin => self.stroke_linejoin.is_some(),
        }
    }
}

/// A source document: its elements in document order.
#[derive(Clone, Debug)]
pub struct Document {
    pub nodes: Vec<SourceNode>,
}

/// Every parent comes before its children, so walking up always ends.
pub open spec fn doc_wf(nodes: Seq<SourceNode>) -> bool {
    forall|i: int|
        #![trigger nodes[i].parent]
        0 <= i < nodes.len() ==> match nodes[i].parent {
            Some(p) => p < i,
            None => true,
        }
}

/// The nearest element at or above `i` that sets `aid` itself.
pub open spec fn declarer(nodes: Seq<SourceNode>, i: int, aid: AId) -> Option<usize>
    decreases i,
{
    if i < 0 || i >= nodes.len() {
        None
    } else if nodes[i].spec_has_attribute(aid) {
        Some(i as usize)
    } else {
        match nodes[i].parent {
            Some(p) => if p < i {
                declarer(nodes, p as int, aid)
            } else {
                None
            },
            None => None,
        }
    }
}

/// The first element whose id is `id`.
pub open spec fn first_with_id(nodes: Seq<SourceNode>, id: Seq<char>) -> Option<usize> {
    if exists|i: int| 0 <= i < nodes.len() && nodes[i].id@ == id {
        Some(
            (choose|i: int|
                0 <= i < nodes.len() && nodes[i].id@ == id && forall|j: int|
                    0 <= j < i ==> nodes[j].id@ != id) as usize,
        )
    } else {
        None
    }
}

pub(crate) proof fn lemma_declarer_in_range(nodes: Seq<SourceNode>, i: int, aid: AId)
    requires
        nodes.len() <= usize::MAX,
    ensures
        match declarer(nodes, i, aid) {
            Some(d) => d < nodes.len() && nodes[d as int].spec_has_attribute(aid),
            None => true,
        },
    decreases i,
{
    if 0 <= i < nodes.len() && !nodes[i].spec_has_attribute(aid) {
        if let Some(p) = nodes[i].parent {
            if p < i {
                lemma_declarer_in_range(nodes, p as int, aid);
            }
        }
    }
}

impl Document {
    /// Whether every parent comes before its children.
    pub open spec fn wf(&self) -> bool {
        doc_wf(self.nodes@)
    }

    /// Whether every parent comes before its children: callers that are not
    /// verified test this before they call the library.
    pub fn is_well_formed(&self) -> (r: bool)
        ensures
            r == self.wf(),
    {
        let mut i: usize = 0;
        while i < self.nodes.len()
            invariant
                i <= self.nodes.len(),
                forall|j: int|
                    #![trigger self.nodes@[j].parent]
                    0 <= j < i ==> match self.nodes@[j].parent {
                        Some(p) => p < j,
                        None => true,
                    },
            decreases self.nodes.len() - i,
        {
            if let Some(p) = self.nodes[i].parent {
                if p >= i {
                    return false;
                }
            }
            i = i + 1;
        }
        true
    }

    /// The nearest element at or above `node` (itself first, then its parent,
    /// and on to the root) that sets `aid` itself.
    pub fn find_declarer(&self, node: usize, aid: AId) -> (r: Option<usize>)
        requires
            self.wf(),
            node < self.nodes.len(),
        ensures
            r == declarer(self.nodes@, node as int, aid),
            match r {
                Some(d) => d < self.nodes.len() && self.nodes@[d as int].spec_has_attribute(aid),
                None => true,
            },
    {
        proof {
            lemma_declarer_in_range(self.nodes@, node as int, aid);
        }
        let mut cur = node;
        loop
            invariant
                self.wf(),
                cur < self.nodes.len(),
                declarer(self.nodes@, cur as int, aid) == declarer(self.nodes@, node as int, aid),
            decreases cur,
        {
            if self.nodes[cur].has_attribute(aid) {
                return Some(cur);
            }
            match self.nodes[cur].parent {
                Some(p) => {
                    assert(p < cur);
                    cur = p;
                },
                None => {
                    return None;
                },
            }
        }
    }

    /// The first element whose id is `id`.
    pub fn element_by_id(&self, id: &String) -> (r: Option<usize>)
        ensures
            r == first_with_id(self.nodes@, id@),
            match r {
                Some(i) => i < self.nodes.len() && self.nodes@[i as int].id@ == id@,
                None => true,
            },
    {
        let mut i: usize = 0;
        while i < self.nodes.len()
            invariant
                i <= self.nodes.len(),
                forall|j: int| 0 <= j < i ==> self.nodes@[j].id@ != id@,
            decreases self.nodes.len() - i,
        {
            if self.nodes[i].id == *id {
                assert(self.nodes@[i as int].id@ == id@);
                let ghost w = choose|k: int|
                    0 <= k < self.nodes@.len() && self.nodes@[k].id@ == id@ && forall|j: int|
                        0 <= j < k ==> self.nodes@[j].id@ != id@;
                assert(w == i as int) by {
                    if w < i as int {
                    } else if w > i as int {
                    }
                }
                return Some(i);
            }
            i = i + 1;
        }
        None
    }
}

} // verus!
