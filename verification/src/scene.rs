//! Scenes: a mutable build-time shape list and the immutable,
//! index-backed form rendering reads.

use vstd::prelude::*;

use crate::bvh::{box_hit, build_range, lemma_tree_hit_exact, lemma_wf_implies_bbox_wf, spec_box_hit, BvhNode};
use crate::fx::{clip, fx_clip, fx_div, fx_mul, fxb, spec_div, spec_mul, SCALE};
use crate::shapes::{Aabb, Shape};
use crate::structures::{sv_clip, vec_clip, Light, Ray};
use crate::vec::{cl, sv_cross, sv_norm, sv_sub, Vec2, Vec3};

verus! {

/// Viewport height as a fraction of its width.
pub const VIEWPORT_HEIGHT_RATIO: i64 = 39322;

#[derive(Clone, Copy, PartialEq, Eq, Structural, Debug)]
pub struct Cam {
    pub pos: Vec3,
    pub dir: Vec3,
    pub up: Vec3,
    pub right: Vec3,
    pub viewport_dist: i64,
    pub viewport_dims: Vec2,
}

impl Cam {
    pub open spec fn wf(self) -> bool {
        &&& self.pos.wf()
        &&& self.dir.wf()
        &&& self.up.wf()
        &&& self.right.wf()
        &&& fxb(self.viewport_dist as int)
        &&& self.viewport_dims.wf()
    }

    /// The default camera: one unit behind the origin looking along the
    /// world forward axis; the viewport is one `scale` wide and the
    /// fixed height ratio tall, half a `scale` ahead.
    pub fn new(scale: i64, _viewport_aspect_ratio: i64) -> (r: Cam)
        ensures
            r.pos == (Vec3 { x: 0i64, y: 0i64, z: (-SCALE) as i64 }),
            r.dir == (Vec3 { x: 0i64, y: 0i64, z: SCALE as i64 }),
            r.up == (Vec3 { x: 0i64, y: SCALE as i64, z: 0i64 }),
            r.right == (Vec3 { x: SCALE as i64, y: 0i64, z: 0i64 }),
            r.viewport_dist == spec_div(clip(scale as int), 2 * SCALE),
            r.viewport_dims.x == clip(scale as int),
            r.viewport_dims.y == spec_mul(clip(scale as int), VIEWPORT_HEIGHT_RATIO as int),
            r.wf(),
    {
        let s = fx_clip(scale);
        Cam {
            pos: Vec3 { x: 0, y: 0, z: -SCALE },
            dir: Vec3 { x: 0, y: 0, z: SCALE },
            up: Vec3 { x: 0, y: SCALE, z: 0 },
            right: Vec3 { x: SCALE, y: 0, z: 0 },
            viewport_dist: fx_div(s, 2 * SCALE),
            viewport_dims: Vec2 { x: s, y: fx_mul(s, VIEWPORT_HEIGHT_RATIO) },
        }
    }

    /// Re-derive the orthonormal basis so the camera faces `p`; world-up
    /// is assumed to be the positive vertical axis.
    pub fn look_at(&mut self, p: Vec3)
        requires
            old(self).wf(),
            p.wf(),
        ensures
            final(self).dir == sv_norm(sv_sub(p, old(self).pos)),
            final(self).right == sv_norm(
                sv_cross(final(self).dir, Vec3 { x: 0, y: SCALE as i64, z: 0 }),
            ),
            final(self).up == sv_norm(sv_cross(final(self).right, final(self).dir)),
            final(self).pos == old(self).pos,
            final(self).viewport_dist == old(self).viewport_dist,
            final(self).viewport_dims == old(self).viewport_dims,
            final(self).wf(),
    {
        self.dir = p.sub(&self.pos).normalize();
        let world_up = Vec3 { x: 0, y: SCALE, z: 0 };
        self.right = self.dir.cross(&world_up).normalize();
        self.up = self.right.cross(&self.dir).normalize();
    }
}

/// The mutable build-time scene: lights and a plain shape list.
pub struct Scene {
    pub scale: i64,
    pub cam: Cam,
    pub lights: Vec<Light>,
    pub shapes: Vec<Shape>,
}

impl Scene {
    pub open spec fn wf(self) -> bool {
        &&& fxb(self.scale as int)
        &&& self.cam.wf()
        &&& forall|i: int| 0 <= i < self.lights@.len() ==> (#[trigger] self.lights@[i]).wf()
        &&& forall|i: int| 0 <= i < self.shapes@.len() ==> (#[trigger] self.shapes@[i]).wf()
    }

    pub fn new(scale: i64, cam: Cam) -> (r: Scene)
        requires
            cam.wf(),
        ensures
            r.scale == clip(scale as int),
            r.cam == cam,
            r.lights@.len() == 0,
            r.shapes@.len() == 0,
            r.wf(),
    {
        Scene { scale: fx_clip(scale), cam, lights: Vec::new(), shapes: Vec::new() }
    }

    pub fn add_light(&mut self, light: Light)
        requires
            old(self).wf(),
            light.wf(),
        ensures
            final(self).lights@ == old(self).lights@.push(light),
            final(self).shapes@ == old(self).shapes@,
            final(self).cam == old(self).cam,
            final(self).scale == old(self).scale,
            final(self).wf(),
    {
        self.lights.push(light);
    }

    pub fn add_shape(&mut self, shape: Shape)
        requires
            old(self).wf(),
            shape.wf(),
        ensures
            final(self).shapes@ == old(self).shapes@.push(shape),
            final(self).lights@ == old(self).lights@,
            final(self).cam == old(self).cam,
            final(self).scale == old(self).scale,
            final(self).wf(),
    {
        self.shapes.push(shape);
    }

    /// Move the shapes behind a bounding-volume hierarchy built once;
    /// the result is immutable for the rest of rendering.
    pub fn optimize(self) -> (r: OptimizedScene)
        requires
            self.wf(),
        ensures
            r.scale == self.scale,
            r.cam == self.cam,
            r.lights@ == self.lights@,
            r.shapes@ == self.shapes@,
            r.wf(),
    {
        let n = self.shapes.len();
        let mut boxes: Vec<Aabb> = Vec::new();
        let mut i: usize = 0;
        while i < n
            invariant
                i <= n,
                n == self.shapes@.len(),
                self.wf(),
                boxes@.len() == i,
                forall|j: int|
                    0 <= j < i ==> #[trigger] boxes@[j] == self.shapes@[j].spec_aabb()
                        && boxes@[j].wf(),
            decreases n - i,
        {
            let b = self.shapes[i].aabb();
            boxes.push(b);
            i = i + 1;
        }
        let bvh = if n == 0 {
            None
        } else {
            Some(build_range(&boxes, 0, n))
        };
        proof {
            assert(boxes@ =~= spec_shape_boxes(self.shapes@));
        }
        OptimizedScene {
            scale: self.scale,
            cam: self.cam,
            lights: self.lights,
            shapes: self.shapes,
            bvh,
        }
    }
}

/// The bounding boxes of a shape list, in order.
pub open spec fn spec_shape_boxes(shapes: Seq<Shape>) -> Seq<Aabb> {
    shapes.map(|i: int, s: Shape| s.spec_aabb())
}

/// The immutable render-time scene: the same data with the shapes
/// indexed by the hierarchy.
pub struct OptimizedScene {
    pub scale: i64,
    pub cam: Cam,
    pub lights: Vec<Light>,
    pub shapes: Vec<Shape>,
    pub bvh: Option<BvhNode>,
}

impl OptimizedScene {
    pub open spec fn wf(self) -> bool {
        &&& fxb(self.scale as int)
        &&& self.cam.wf()
        &&& forall|i: int| 0 <= i < self.lights@.len() ==> (#[trigger] self.lights@[i]).wf()
        &&& forall|i: int| 0 <= i < self.shapes@.len() ==> (#[trigger] self.shapes@[i]).wf()
        &&& match self.bvh {
            Some(t) => {
                &&& t.wf(spec_shape_boxes(self.shapes@))
                &&& forall|i: int| #[trigger]
                    t.leaves().contains(i) <==> 0 <= i < self.shapes@.len()
            },
            None => self.shapes@.len() == 0,
        }
    }

    /// The candidate set of a ray, as a mask over shape indices: index
    /// `i` is marked exactly when the ray meets shape `i`'s bounding box.
    pub fn raycast(&self, ray: &Ray) -> (r: Vec<bool>)
        requires
            self.wf(),
            ray.wf(),
        ensures
            r@.len() == self.shapes@.len(),
            forall|i: int|
                0 <= i < self.shapes@.len() ==> r@[i] == spec_box_hit(
                    #[trigger] self.shapes@[i].spec_aabb(),
                    *ray,
                ),
    {
        let n = self.shapes.len();
        let mut mask: Vec<bool> = Vec::new();
        let mut i: usize = 0;
        while i < n
            invariant
                i <= n,
                mask@.len() == i,
                forall|j: int| 0 <= j < i ==> !(#[trigger] mask@[j]),
            decreases n - i,
        {
            mask.push(false);
            i = i + 1;
        }
        match &self.bvh {
            None => mask,
            Some(t) => {
                proof {
                    lemma_wf_implies_bbox_wf(*t, spec_shape_boxes(self.shapes@));
                }
                let r = t.traverse(ray, mask);
                proof {
                    assert forall|i: int| 0 <= i < self.shapes@.len() implies r@[i]
                        == spec_box_hit(self.shapes@[i].spec_aabb(), *ray) by {
                        lemma_tree_hit_exact(*t, spec_shape_boxes(self.shapes@), *ray, i);
                        assert(t.leaves().contains(i));
                        assert(spec_shape_boxes(self.shapes@)[i] == self.shapes@[i].spec_aabb());
                    }
                }
                r
            },
        }
    }
}

} // verus!
