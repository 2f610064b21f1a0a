//! Bounding-volume hierarchy.
//!
//! A binary tree over the shapes' axis-aligned boxes, built once per
//! optimized scene. Traversal prunes subtrees whose box the ray misses
//! and is proved to mark exactly the shapes whose own bounding box the
//! ray meets, by the slab test below.

use vstd::prelude::*;

use crate::fx::{fdiv128, fxb, FX_MAX, SCALE};
use crate::shapes::Aabb;
use crate::structures::Ray;

verus! {

/// A parameter value beyond every representable slab crossing, standing
/// in for an unconstrained axis.
pub const T_BIG: i64 = 0x400_0000_0000_0000;

/// Floor division as used by the slab test; total, floor for `p > 0`.
pub open spec fn sfdiv(n: int, p: int) -> int {
    n / p
}

/// Ceiling division for `p > 0`.
pub open spec fn scdiv(n: int, p: int) -> int {
    -((-n) / p)
}

/// The parameter interval in which the ray is between the two planes of
/// one axis slab: entry rounded down, exit rounded up, so the interval
/// never loses a crossing. A zero direction component keeps the full
/// interval when the origin lies inside the slab and an empty one
/// otherwise.
pub open spec fn spec_axis_interval(o: i64, d: i64, lo: i64, hi: i64) -> (int, int) {
    if d == 0 {
        if lo <= o <= hi {
            (-(T_BIG as int), T_BIG as int)
        } else {
            (1, 0)
        }
    } else if d > 0 {
        (sfdiv((lo - o) * SCALE, d as int), scdiv((hi - o) * SCALE, d as int))
    } else {
        (sfdiv((o - hi) * SCALE, -(d as int)), scdiv((o - lo) * SCALE, -(d as int)))
    }
}

pub open spec fn smax(a: int, b: int) -> int {
    if a >= b {
        a
    } else {
        b
    }
}

pub open spec fn smin(a: int, b: int) -> int {
    if a <= b {
        a
    } else {
        b
    }
}

/// The slab test: the three axis intervals share a point at a
/// non-negative parameter.
pub open spec fn spec_box_hit(bb: Aabb, ray: Ray) -> bool {
    let ix = spec_axis_interval(ray.origin.x, ray.dir.x, bb.min.x, bb.max.x);
    let iy = spec_axis_interval(ray.origin.y, ray.dir.y, bb.min.y, bb.max.y);
    let iz = spec_axis_interval(ray.origin.z, ray.dir.z, bb.min.z, bb.max.z);
    let enter = smax(smax(ix.0, iy.0), iz.0);
    let exit = smin(smin(ix.1, iy.1), iz.1);
    enter <= exit && exit >= 0
}

fn axis_interval(o: i64, d: i64, lo: i64, hi: i64) -> (r: (i128, i128))
    requires
        fxb(o as int),
        fxb(d as int),
        fxb(lo as int),
        fxb(hi as int),
    ensures
        r.0 == spec_axis_interval(o, d, lo, hi).0,
        r.1 == spec_axis_interval(o, d, lo, hi).1,
{
    if d == 0 {
        if lo <= o && o <= hi {
            (-(T_BIG as i128), T_BIG as i128)
        } else {
            (1, 0)
        }
    } else if d > 0 {
        proof {
            crate::fx::lemma_abs_mul_le(lo - o, SCALE as int, 2 * FX_MAX as int, SCALE as int);
            crate::fx::lemma_abs_mul_le(hi - o, SCALE as int, 2 * FX_MAX as int, SCALE as int);
        }
        let n0: i128 = ((lo as i128) - (o as i128)) * (SCALE as i128);
        let n1: i128 = ((hi as i128) - (o as i128)) * (SCALE as i128);
        (fdiv128(n0, d as i128), -fdiv128(-n1, d as i128))
    } else {
        proof {
            crate::fx::lemma_abs_mul_le(o - hi, SCALE as int, 2 * FX_MAX as int, SCALE as int);
            crate::fx::lemma_abs_mul_le(o - lo, SCALE as int, 2 * FX_MAX as int, SCALE as int);
        }
        let p: i128 = -(d as i128);
        let n0: i128 = ((o as i128) - (hi as i128)) * (SCALE as i128);
        let n1: i128 = ((o as i128) - (lo as i128)) * (SCALE as i128);
        (fdiv128(n0, p), -fdiv128(-n1, p))
    }
}

pub fn box_hit(bb: &Aabb, ray: &Ray) -> (r: bool)
    requires
        bb.wf(),
        ray.wf(),
    ensures
        r == spec_box_hit(*bb, *ray),
{
    let ix = axis_interval(ray.origin.x, ray.dir.x, bb.min.x, bb.max.x);
    let iy = axis_interval(ray.origin.y, ray.dir.y, bb.min.y, bb.max.y);
    let iz = axis_interval(ray.origin.z, ray.dir.z, bb.min.z, bb.max.z);
    let e1 = if ix.0 >= iy.0 {
        ix.0
    } else {
        iy.0
    };
    let enter = if e1 >= iz.0 {
        e1
    } else {
        iz.0
    };
    let x1 = if ix.1 <= iy.1 {
        ix.1
    } else {
        iy.1
    };
    let exit = if x1 <= iz.1 {
        x1
    } else {
        iz.1
    };
    enter <= exit && exit >= 0
}

/// Growing a box can only widen each axis interval.
proof fn lemma_axis_interval_monotone(o: i64, d: i64, lo_i: i64, hi_i: i64, lo_o: i64, hi_o: i64)
    requires
        lo_o <= lo_i,
        hi_i <= hi_o,
        spec_axis_interval(o, d, lo_i, hi_i).0 <= spec_axis_interval(o, d, lo_i, hi_i).1,
    ensures
        spec_axis_interval(o, d, lo_o, hi_o).0 <= spec_axis_interval(o, d, lo_i, hi_i).0,
        spec_axis_interval(o, d, lo_i, hi_i).1 <= spec_axis_interval(o, d, lo_o, hi_o).1,
{
    if d == 0 {
        assert(lo_i <= o <= hi_i);
    } else if d > 0 {
        vstd::arithmetic::div_mod::lemma_div_is_ordered(
            (lo_o - o) * SCALE,
            (lo_i - o) * SCALE,
            d as int,
        );
        vstd::arithmetic::div_mod::lemma_div_is_ordered(
            -((hi_o - o) * SCALE),
            -((hi_i - o) * SCALE),
            d as int,
        );
    } else {
        vstd::arithmetic::div_mod::lemma_div_is_ordered(
            (o - hi_o) * SCALE,
            (o - hi_i) * SCALE,
            -(d as int),
        );
        vstd::arithmetic::div_mod::lemma_div_is_ordered(
            -((o - lo_o) * SCALE),
            -((o - lo_i) * SCALE),
            -(d as int),
        );
    }
}

/// A ray that meets a box also meets every enclosing box.
pub proof fn lemma_box_hit_monotone(inner: Aabb, outer: Aabb, ray: Ray)
    requires
        outer.spec_contains_box(inner),
        spec_box_hit(inner, ray),
    ensures
        spec_box_hit(outer, ray),
{
    let ixi = spec_axis_interval(ray.origin.x, ray.dir.x, inner.min.x, inner.max.x);
    let iyi = spec_axis_interval(ray.origin.y, ray.dir.y, inner.min.y, inner.max.y);
    let izi = spec_axis_interval(ray.origin.z, ray.dir.z, inner.min.z, inner.max.z);
    assert(ixi.0 <= ixi.1 && iyi.0 <= iyi.1 && izi.0 <= izi.1);
    lemma_axis_interval_monotone(
        ray.origin.x,
        ray.dir.x,
        inner.min.x,
        inner.max.x,
        outer.min.x,
        outer.max.x,
    );
    lemma_axis_interval_monotone(
        ray.origin.y,
        ray.dir.y,
        inner.min.y,
        inner.max.y,
        outer.min.y,
        outer.max.y,
    );
    lemma_axis_interval_monotone(
        ray.origin.z,
        ray.dir.z,
        inner.min.z,
        inner.max.z,
        outer.min.z,
        outer.max.z,
    );
}

/// A node of the hierarchy; leaves refer to shapes by index.
pub enum BvhNode {
    Leaf { idx: usize, bbox: Aabb },
    Node { bbox: Aabb, left: Box<BvhNode>, right: Box<BvhNode> },
}

impl BvhNode {
    pub open spec fn bbox(self) -> Aabb {
        match self {
            BvhNode::Leaf { bbox, .. } => bbox,
            BvhNode::Node { bbox, .. } => bbox,
        }
    }

    /// The indices stored at the leaves below this node.
    pub open spec fn leaves(self) -> Set<int>
        decreases self,
    {
        match self {
            BvhNode::Leaf { idx, .. } => Set::empty().insert(idx as int),
            BvhNode::Node { left, right, .. } => left.leaves().union(right.leaves()),
        }
    }

    /// Structural invariant against the shapes' boxes: leaves carry their
    /// shape's box and every node's box contains its children's.
    pub open spec fn wf(self, boxes: Seq<Aabb>) -> bool
        decreases self,
    {
        match self {
            BvhNode::Leaf { idx, bbox } => {
                &&& (idx as int) < boxes.len()
                &&& bbox == boxes[idx as int]
                &&& bbox.wf()
            },
            BvhNode::Node { bbox, left, right } => {
                &&& bbox.wf()
                &&& left.wf(boxes)
                &&& right.wf(boxes)
                &&& bbox.spec_contains_box(left.bbox())
                &&& bbox.spec_contains_box(right.bbox())
            },
        }
    }

    /// What a pruning traversal reaches: a leaf whose box the ray meets,
    /// through ancestors whose boxes the ray meets.
    pub open spec fn spec_tree_hit(self, ray: Ray, i: int) -> bool
        decreases self,
    {
        match self {
            BvhNode::Leaf { idx, bbox } => i == idx as int && spec_box_hit(bbox, ray),
            BvhNode::Node { bbox, left, right } => spec_box_hit(bbox, ray) && (left.spec_tree_hit(
                ray,
                i,
            ) || right.spec_tree_hit(ray, i)),
        }
    }
}

/// Every leaf's box is contained in its node's box.
proof fn lemma_leaf_in_bbox(node: BvhNode, boxes: Seq<Aabb>, i: int)
    requires
        node.wf(boxes),
        node.leaves().contains(i),
    ensures
        0 <= i < boxes.len(),
        node.bbox().spec_contains_box(boxes[i]),
    decreases node,
{
    match node {
        BvhNode::Leaf { .. } => {},
        BvhNode::Node { bbox, left, right } => {
            if left.leaves().contains(i) {
                lemma_leaf_in_bbox(*left, boxes, i);
            } else {
                lemma_leaf_in_bbox(*right, boxes, i);
            }
        },
    }
}

/// Pruning loses nothing: a traversal reaches index `i` exactly when `i`
/// is a leaf below the node and the ray meets that shape's own box.
pub proof fn lemma_tree_hit_exact(node: BvhNode, boxes: Seq<Aabb>, ray: Ray, i: int)
    requires
        node.wf(boxes),
    ensures
        node.spec_tree_hit(ray, i) <==> (node.leaves().contains(i) && spec_box_hit(boxes[i], ray)),
    decreases node,
{
    match node {
        BvhNode::Leaf { .. } => {},
        BvhNode::Node { bbox, left, right } => {
            lemma_tree_hit_exact(*left, boxes, ray, i);
            lemma_tree_hit_exact(*right, boxes, ray, i);
            if node.leaves().contains(i) && spec_box_hit(boxes[i], ray) {
                lemma_leaf_in_bbox(node, boxes, i);
                lemma_box_hit_monotone(boxes[i], bbox, ray);
            }
        },
    }
}

/// Build the subtree over the index range `[lo, hi)`.
pub fn build_range(boxes: &Vec<Aabb>, lo: usize, hi: usize) -> (r: BvhNode)
    requires
        lo < hi <= boxes@.len(),
        forall|i: int| 0 <= i < boxes@.len() ==> (#[trigger] boxes@[i]).wf(),
    ensures
        r.wf(boxes@),
        forall|i: int| r.leaves().contains(i) <==> lo <= i < hi,
    decreases hi - lo,
{
    if hi - lo == 1 {
        let b = boxes[lo];
        let node = BvhNode::Leaf { idx: lo, bbox: b };
        proof {
            assert forall|i: int| node.leaves().contains(i) <==> lo <= i < hi by {
                assert(node.leaves() =~= Set::empty().insert(lo as int));
            }
        }
        node
    } else {
        let mid = lo + (hi - lo) / 2;
        let left = build_range(boxes, lo, mid);
        let right = build_range(boxes, mid, hi);
        let bbox = left.bbox_exec().union(&right.bbox_exec());
        let node = BvhNode::Node { bbox, left: Box::new(left), right: Box::new(right) };
        proof {
            assert forall|i: int| node.leaves().contains(i) implies lo <= i < hi by {
                assert(left.leaves().contains(i) || right.leaves().contains(i));
            }
            assert forall|i: int| lo <= i < hi implies node.leaves().contains(i) by {
                if i < mid {
                    assert(left.leaves().contains(i));
                } else {
                    assert(right.leaves().contains(i));
                }
                assert(left.leaves().union(right.leaves()).contains(i));
            }
        }
        node
    }
}

impl BvhNode {
    /// The stored bounding box.
    pub fn bbox_exec(&self) -> (r: Aabb)
        ensures
            r == self.bbox(),
    {
        match self {
            BvhNode::Leaf { bbox, .. } => *bbox,
            BvhNode::Node { bbox, .. } => *bbox,
        }
    }

    /// Depth-first traversal: skip the subtree when the ray misses its
    /// box, otherwise mark reached leaves in the candidate mask.
    pub fn traverse(&self, ray: &Ray, mask: Vec<bool>) -> (r: Vec<bool>)
        requires
            ray.wf(),
            forall|i: int| #[trigger] self.leaves().contains(i) ==> 0 <= i < mask@.len(),
            self.bbox_wf_rec(),
        ensures
            r@.len() == mask@.len(),
            forall|i: int|
                0 <= i < mask@.len() ==> r@[i] == (mask@[i] || self.spec_tree_hit(*ray, i)),
        decreases *self,
    {
        let bb = self.bbox_exec();
        if !box_hit(&bb, ray) {
            proof {
                assert forall|i: int| 0 <= i < mask@.len() implies mask@[i] == (mask@[i]
                    || self.spec_tree_hit(*ray, i)) by {
                    assert(!self.spec_tree_hit(*ray, i));
                }
            }
            return mask;
        }
        match self {
            BvhNode::Leaf { idx, .. } => {
                proof {
                    assert(self.leaves().contains(*idx as int));
                }
                let mut m = mask;
                m.set(*idx, true);
                proof {
                    assert forall|i: int| 0 <= i < mask@.len() implies m@[i] == (mask@[i]
                        || self.spec_tree_hit(*ray, i)) by {
                        if i == *idx as int {
                            assert(self.spec_tree_hit(*ray, i));
                        } else {
                            assert(!self.spec_tree_hit(*ray, i));
                        }
                    }
                }
                m
            },
            BvhNode::Node { left, right, .. } => {
                proof {
                    assert forall|i: int| #[trigger] left.leaves().contains(i) implies 0 <= i
                        < mask@.len() by {
                        assert(self.leaves().contains(i));
                    }
                    assert forall|i: int| #[trigger] right.leaves().contains(i) implies 0 <= i
                        < mask@.len() by {
                        assert(self.leaves().contains(i));
                    }
                }
                let m1 = left.traverse(ray, mask);
                let m2 = right.traverse(ray, m1);
                proof {
                    assert forall|i: int| 0 <= i < mask@.len() implies m2@[i] == (mask@[i]
                        || self.spec_tree_hit(*ray, i)) by {
                        assert(m1@[i] == (mask@[i] || left.spec_tree_hit(*ray, i)));
                        assert(m2@[i] == (m1@[i] || right.spec_tree_hit(*ray, i)));
                        assert(self.spec_tree_hit(*ray, i) == (left.spec_tree_hit(*ray, i)
                            || right.spec_tree_hit(*ray, i)));
                    }
                }
                m2
            },
        }
    }

    /// Well-formedness of the stored boxes alone, independent of the
    /// shape list; enough for traversal.
    pub open spec fn bbox_wf_rec(self) -> bool
        decreases self,
    {
        match self {
            BvhNode::Leaf { bbox, .. } => bbox.wf(),
            BvhNode::Node { bbox, left, right } => bbox.wf() && left.bbox_wf_rec()
                && right.bbox_wf_rec(),
        }
    }
}

/// Well-formedness of the whole tree implies that of the boxes alone.
pub proof fn lemma_wf_implies_bbox_wf(node: BvhNode, boxes: Seq<Aabb>)
    requires
        node.wf(boxes),
    ensures
        node.bbox_wf_rec(),
    decreases node,
{
    match node {
        BvhNode::Leaf { .. } => {},
        BvhNode::Node { left, right, .. } => {
            lemma_wf_implies_bbox_wf(*left, boxes);
            lemma_wf_implies_bbox_wf(*right, boxes);
        },
    }
}

} // verus!
