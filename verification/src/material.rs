//! Material sampling.
//!
//! A material answers, per surface (UV) coordinate: base color, ambient,
//! diffuse and specular coefficients, reflectivity, roughness, refraction
//! amount and refractive index, and optionally a perturbing normal with a
//! magnitude multiplier.

use vstd::prelude::*;

use crate::fx::{clip, emod128, fdiv128, fx_clip, fx_div, fxb, spec_div, FX_MAX, SCALE};
use crate::structures::{sv_clip, vec_clip};
use crate::vec::{Vec2, Vec3};

verus! {

/// Smallest representable positive refractive index; constructors raise
/// non-positive indices to it so that Snell's law never divides by zero.
pub const MIN_REFRACTIVE_INDEX: i64 = 1;

#[derive(Clone, Copy, PartialEq, Eq, Structural, Debug)]
pub struct BasicMaterial {
    pub color: Vec3,
    pub ambient: i64,
    pub diffuse: i64,
    pub specular: i64,
    pub reflection: i64,
    pub roughness: i64,
    pub refraction: i64,
    pub refractive_index: i64,
}

/// Clamp a refractive index to be positive.
pub open spec fn clamp_index(a: int) -> int {
    if clip(a) < MIN_REFRACTIVE_INDEX {
        MIN_REFRACTIVE_INDEX as int
    } else {
        clip(a)
    }
}

impl BasicMaterial {
    pub open spec fn wf(self) -> bool {
        &&& self.color.wf()
        &&& fxb(self.ambient as int)
        &&& fxb(self.diffuse as int)
        &&& fxb(self.specular as int)
        &&& fxb(self.reflection as int)
        &&& fxb(self.roughness as int)
        &&& fxb(self.refraction as int)
        &&& MIN_REFRACTIVE_INDEX <= self.refractive_index <= FX_MAX
    }

    #[allow(clippy::too_many_arguments)]
    pub fn new(
        color: Vec3,
        ambient: i64,
        diffuse: i64,
        specular: i64,
        reflection: i64,
        roughness: i64,
        refraction: i64,
        refractive_index: i64,
    ) -> (r: BasicMaterial)
        ensures
            r.color == sv_clip(color),
            r.ambient == clip(ambient as int),
            r.diffuse == clip(diffuse as int),
            r.specular == clip(specular as int),
            r.reflection == clip(reflection as int),
            r.roughness == clip(roughness as int),
            r.refraction == clip(refraction as int),
            r.refractive_index == clamp_index(refractive_index as int),
            r.wf(),
    {
        let ri = fx_clip(refractive_index);
        BasicMaterial {
            color: vec_clip(color),
            ambient: fx_clip(ambient),
            diffuse: fx_clip(diffuse),
            specular: fx_clip(specular),
            reflection: fx_clip(reflection),
            roughness: fx_clip(roughness),
            refraction: fx_clip(refraction),
            refractive_index: if ri < MIN_REFRACTIVE_INDEX {
                MIN_REFRACTIVE_INDEX
            } else {
                ri
            },
        }
    }

    pub fn builder() -> (r: BasicMaterialBuilder)
        ensures
            r == BasicMaterialBuilder::default_spec(),
    {
        BasicMaterialBuilder::default()
    }

    pub fn color_at(&self, _uv: &Vec2) -> (r: Vec3)
        ensures
            r == self.color,
    {
        self.color
    }

    pub fn ambient_at(&self, _uv: &Vec2) -> (r: i64)
        ensures
            r == self.ambient,
    {
        self.ambient
    }

    pub fn diffuse_at(&self, _uv: &Vec2) -> (r: i64)
        ensures
            r == self.diffuse,
    {
        self.diffuse
    }

    pub fn specular_at(&self, _uv: &Vec2) -> (r: i64)
        ensures
            r == self.specular,
    {
        self.specular
    }

    pub fn reflection_at(&self, _uv: &Vec2) -> (r: i64)
        ensures
            r == self.reflection,
    {
        self.reflection
    }

    pub fn roughness_at(&self, _uv: &Vec2) -> (r: i64)
        ensures
            r == self.roughness,
    {
        self.roughness
    }

    pub fn refraction_at(&self, _uv: &Vec2) -> (r: i64)
        ensures
            r == self.refraction,
    {
        self.refraction
    }

    pub fn refractive_index_at(&self, _uv: &Vec2) -> (r: i64)
        ensures
            r == self.refractive_index,
    {
        self.refractive_index
    }
}

/// Builder for `BasicMaterial`; fields start at zero and each setter
/// clips its argument.
#[derive(Clone, Copy, PartialEq, Eq, Structural, Debug)]
pub struct BasicMaterialBuilder {
    pub color: Vec3,
    pub ambient: i64,
    pub diffuse: i64,
    pub specular: i64,
    pub reflection: i64,
    pub roughness: i64,
    pub refraction: i64,
    pub refractive_index: i64,
}

impl BasicMaterialBuilder {
    pub open spec fn default_spec() -> BasicMaterialBuilder {
        BasicMaterialBuilder {
            color: Vec3 { x: 0, y: 0, z: 0 },
            ambient: 0,
            diffuse: 0,
            specular: 0,
            reflection: 0,
            roughness: 0,
            refraction: 0,
            refractive_index: 0,
        }
    }

    pub fn color(self, color: Vec3) -> (r: Self)
        ensures
            r == (Self { color: sv_clip(color), ..self }),
    {
        Self { color: vec_clip(color), ..self }
    }

    pub fn ambient(self, value: i64) -> (r: Self)
        ensures
            r == (Self { ambient: crate::vec::cl(value as int), ..self }),
    {
        Self { ambient: fx_clip(value), ..self }
    }

    pub fn diffuse(self, value: i64) -> (r: Self)
        ensures
            r == (Self { diffuse: crate::vec::cl(value as int), ..self }),
    {
        Self { diffuse: fx_clip(value), ..self }
    }

    pub fn specular(self, value: i64) -> (r: Self)
        ensures
            r == (Self { specular: crate::vec::cl(value as int), ..self }),
    {
        Self { specular: fx_clip(value), ..self }
    }

    pub fn reflection(self, value: i64) -> (r: Self)
        ensures
            r == (Self { reflection: crate::vec::cl(value as int), ..self }),
    {
        Self { reflection: fx_clip(value), ..self }
    }

    pub fn roughness(self, value: i64) -> (r: Self)
        ensures
            r == (Self { roughness: crate::vec::cl(value as int), ..self }),
    {
        Self { roughness: fx_clip(value), ..self }
    }

    pub fn refraction(self, value: i64) -> (r: Self)
        ensures
            r == (Self { refraction: crate::vec::cl(value as int), ..self }),
    {
        Self { refraction: fx_clip(value), ..self }
    }

    pub fn refractive_index(self, value: i64) -> (r: Self)
        ensures
            r == (Self { refractive_index: crate::vec::cl(value as int), ..self }),
    {
        Self { refractive_index: fx_clip(value), ..self }
    }

    pub fn build(self) -> (r: BasicMaterial)
        ensures
            r == (BasicMaterial {
                color: sv_clip(self.color),
                ambient: clip(self.ambient as int) as i64,
                diffuse: clip(self.diffuse as int) as i64,
                specular: clip(self.specular as int) as i64,
                reflection: clip(self.reflection as int) as i64,
                roughness: clip(self.roughness as int) as i64,
                refraction: clip(self.refraction as int) as i64,
                refractive_index: clamp_index(self.refractive_index as int) as i64,
            }),
            r.wf(),
    {
        BasicMaterial::new(
            self.color,
            self.ambient,
            self.diffuse,
            self.specular,
            self.reflection,
            self.roughness,
            self.refraction,
            self.refractive_index,
        )
    }
}

impl Default for BasicMaterialBuilder {
    fn default() -> (r: Self)
        ensures
            r == Self::default_spec(),
    {
        BasicMaterialBuilder {
            color: Vec3 { x: 0, y: 0, z: 0 },
            ambient: 0,
            diffuse: 0,
            specular: 0,
            reflection: 0,
            roughness: 0,
            refraction: 0,
            refractive_index: 0,
        }
    }
}

/// Floor of the product of two fixed-point values, as a plain integer:
/// the tile index a scaled UV component falls into.
pub open spec fn floor_scaled(u: int, s: int) -> int {
    (u * s) / ((SCALE as int) * (SCALE as int))
}

/// Whether the checker tile at a scaled UV coordinate is an even tile.
pub open spec fn checker_even(u: int, v: int, s: int) -> bool {
    (floor_scaled(u, s) + floor_scaled(v, s)) % 2 == 0
}

/// Adding one flips the parity of the remainder by two.
proof fn lemma_parity_flip(a: int)
    ensures
        (a + 1) % 2 == 1 - a % 2,
{
    let q = a / 2;
    let p = a % 2;
    vstd::arithmetic::div_mod::lemma_fundamental_div_mod(a, 2);
    if p == 0 {
        vstd::arithmetic::div_mod::lemma_fundamental_div_mod_converse_mod(a + 1, 2, q, 1);
    } else {
        assert(a + 1 == (q + 1) * 2 + 0) by (nonlinear_arith)
            requires
                a == 2 * q + 1,
        ;
        vstd::arithmetic::div_mod::lemma_fundamental_div_mod_converse_mod(a + 1, 2, q + 1, 0);
    }
}

/// At checker scale one, one unit along the first UV axis lands on the
/// next tile: the parity flips and the two colors swap.
pub proof fn lemma_checker_alternates_u(m: CheckerMaterial, uv: Vec2, uv2: Vec2)
    requires
        m.scale == SCALE,
        uv2.x == uv.x + SCALE,
        uv2.y == uv.y,
        fxb(uv.x as int + SCALE as int),
    ensures
        checker_even(uv2.x as int, uv2.y as int, m.scale as int) == !checker_even(
            uv.x as int,
            uv.y as int,
            m.scale as int,
        ),
        spec_checker_at(m, uv2) == if checker_even(uv.x as int, uv.y as int, m.scale as int) {
            m.color2
        } else {
            m.color1
        },
{
    let ss = (SCALE as int) * (SCALE as int);
    assert((uv2.x as int) * (SCALE as int) == (uv.x as int) * (SCALE as int) + (SCALE as int) * (
    SCALE as int)) by (nonlinear_arith)
        requires
            uv2.x == uv.x + SCALE,
    ;
    vstd::arithmetic::div_mod::lemma_div_plus_one((uv.x as int) * (SCALE as int), ss);
    let f = floor_scaled(uv.x as int, SCALE as int);
    let g = floor_scaled(uv.y as int, SCALE as int);
    assert(floor_scaled(uv2.x as int, SCALE as int) == f + 1);
    lemma_parity_flip(f + g);
    assert((f + 1 + g) == (f + g) + 1);
}

/// The same alternation along the second UV axis.
pub proof fn lemma_checker_alternates_v(m: CheckerMaterial, uv: Vec2, uv2: Vec2)
    requires
        m.scale == SCALE,
        uv2.x == uv.x,
        uv2.y == uv.y + SCALE,
        fxb(uv.y as int + SCALE as int),
    ensures
        checker_even(uv2.x as int, uv2.y as int, m.scale as int) == !checker_even(
            uv.x as int,
            uv.y as int,
            m.scale as int,
        ),
        spec_checker_at(m, uv2) == if checker_even(uv.x as int, uv.y as int, m.scale as int) {
            m.color2
        } else {
            m.color1
        },
{
    let ss = (SCALE as int) * (SCALE as int);
    assert((uv2.y as int) * (SCALE as int) == (uv.y as int) * (SCALE as int) + (SCALE as int) * (
    SCALE as int)) by (nonlinear_arith)
        requires
            uv2.y == uv.y + SCALE,
    ;
    vstd::arithmetic::div_mod::lemma_div_plus_one((uv.y as int) * (SCALE as int), ss);
    let f = floor_scaled(uv.x as int, SCALE as int);
    let g = floor_scaled(uv.y as int, SCALE as int);
    assert(floor_scaled(uv2.y as int, SCALE as int) == g + 1);
    lemma_parity_flip(f + g);
}

#[derive(Clone, Copy, PartialEq, Eq, Structural, Debug)]
pub struct CheckerMaterial {
    pub color1: Vec3,
    pub color2: Vec3,
    pub scale: i64,
    pub basic_material: BasicMaterial,
}

/// The two-color tile pattern: `color1` on even tiles, `color2` on odd.
pub open spec fn spec_checker_at(m: CheckerMaterial, uv: Vec2) -> Vec3 {
    if checker_even(uv.x as int, uv.y as int, m.scale as int) {
        m.color1
    } else {
        m.color2
    }
}

impl CheckerMaterial {
    pub open spec fn wf(self) -> bool {
        &&& self.color1.wf()
        &&& self.color2.wf()
        &&& fxb(self.scale as int)
        &&& self.basic_material.wf()
    }

    pub fn new(color1: Vec3, color2: Vec3, scale: i64, basic_material: BasicMaterial) -> (r:
        CheckerMaterial)
        requires
            basic_material.wf(),
        ensures
            r.color1 == sv_clip(color1),
            r.color2 == sv_clip(color2),
            r.scale == clip(scale as int),
            r.basic_material == basic_material,
            r.wf(),
    {
        CheckerMaterial {
            color1: vec_clip(color1),
            color2: vec_clip(color2),
            scale: fx_clip(scale),
            basic_material,
        }
    }

    pub fn checker_at(&self, uv: &Vec2) -> (r: Vec3)
        requires
            self.wf(),
            uv.wf(),
        ensures
            r == spec_checker_at(*self, *uv),
    {
        let ss: i128 = (SCALE as i128) * (SCALE as i128);
        proof {
            crate::fx::lemma_abs_mul_le(uv.x as int, self.scale as int, FX_MAX as int, FX_MAX as int);
            crate::fx::lemma_abs_mul_le(uv.y as int, self.scale as int, FX_MAX as int, FX_MAX as int);
        }
        let fu: i128 = fdiv128((uv.x as i128) * (self.scale as i128), ss);
        let fv: i128 = fdiv128((uv.y as i128) * (self.scale as i128), ss);
        proof {
            vstd::arithmetic::div_mod::lemma_div_is_ordered(
                -0x1_0000_0000_0000_0000_0000,
                uv.x as int * self.scale as int,
                ss as int,
            );
            vstd::arithmetic::div_mod::lemma_div_is_ordered(
                uv.x as int * self.scale as int,
                0x1_0000_0000_0000_0000_0000,
                ss as int,
            );
            vstd::arithmetic::div_mod::lemma_div_is_ordered(
                -0x1_0000_0000_0000_0000_0000,
                uv.y as int * self.scale as int,
                ss as int,
            );
            vstd::arithmetic::div_mod::lemma_div_is_ordered(
                uv.y as int * self.scale as int,
                0x1_0000_0000_0000_0000_0000,
                ss as int,
            );
        }
        let par: i128 = emod128(fu + fv, 2);
        if par == 0 {
            self.color1
        } else {
            self.color2
        }
    }

    pub fn color_at(&self, uv: &Vec2) -> (r: Vec3)
        requires
            self.wf(),
            uv.wf(),
        ensures
            r == spec_checker_at(*self, *uv),
    {
        self.checker_at(uv)
    }

    pub fn ambient_at(&self, uv: &Vec2) -> (r: i64)
        ensures
            r == self.basic_material.ambient,
    {
        self.basic_material.ambient_at(uv)
    }

    pub fn diffuse_at(&self, uv: &Vec2) -> (r: i64)
        ensures
            r == self.basic_material.diffuse,
    {
        self.basic_material.diffuse_at(uv)
    }

    pub fn specular_at(&self, uv: &Vec2) -> (r: i64)
        ensures
            r == self.basic_material.specular,
    {
        self.basic_material.specular_at(uv)
    }

    pub fn reflection_at(&self, uv: &Vec2) -> (r: i64)
        ensures
            r == self.basic_material.reflection,
    {
        self.basic_material.reflection_at(uv)
    }

    pub fn roughness_at(&self, uv: &Vec2) -> (r: i64)
        ensures
            r == self.basic_material.roughness,
    {
        self.basic_material.roughness_at(uv)
    }

    pub fn refraction_at(&self, _uv: &Vec2) -> (r: i64)
        ensures
            r == self.basic_material.refraction,
    {
        self.basic_material.refraction
    }

    pub fn refractive_index_at(&self, _uv: &Vec2) -> (r: i64)
        ensures
            r == self.basic_material.refractive_index,
    {
        self.basic_material.refractive_index
    }
}

/// A decoded image: a flat row-major array of color triples.
#[derive(Clone, Debug)]
pub struct Texture {
    pub width: u32,
    pub height: u32,
    pub data: Vec<Vec3>,
}

/// One channel of the linear value remapping
/// `(c - cur_min) / (cur_max - cur_min) * (new_max - new_min) + new_min`.
pub open spec fn spec_remap_val(c: int, cmin: int, cmax: int, nmin: int, nmax: int) -> int {
    crate::fx::spec_add(
        crate::fx::spec_mul(spec_div(clip(c - cmin), clip(cmax - cmin)), clip(nmax - nmin)),
        nmin,
    )
}

pub open spec fn spec_remap_vec(c: Vec3, cmin: int, cmax: int, nmin: int, nmax: int) -> Vec3 {
    Vec3 {
        x: spec_remap_val(c.x as int, cmin, cmax, nmin, nmax) as i64,
        y: spec_remap_val(c.y as int, cmin, cmax, nmin, nmax) as i64,
        z: spec_remap_val(c.z as int, cmin, cmax, nmin, nmax) as i64,
    }
}

impl Texture {
    pub open spec fn wf(self) -> bool {
        &&& self.width >= 1
        &&& self.height >= 1
        &&& self.data@.len() == (self.width as int) * (self.height as int)
        &&& forall|i: int| 0 <= i < self.data@.len() ==> (#[trigger] self.data@[i]).wf()
    }

    pub fn new(width: u32, height: u32, data: Vec<Vec3>) -> (r: Texture)
        requires
            width >= 1,
            height >= 1,
            data@.len() == (width as int) * (height as int),
            forall|i: int| 0 <= i < data@.len() ==> (#[trigger] data@[i]).wf(),
        ensures
            r.width == width,
            r.height == height,
            r.data@ == data@,
            r.wf(),
    {
        Texture { width, height, data }
    }

    pub fn get_pixel(&self, x: u32, y: u32) -> (r: Vec3)
        requires
            self.wf(),
            x < self.width,
            y < self.height,
        ensures
            r == self.data@[(y as int) * (self.width as int) + (x as int)],
            r.wf(),
    {
        let n = self.data.len();
        proof {
            lemma_grid_index_in_range(
                x as int,
                y as int,
                self.width as int,
                self.height as int,
            );
            crate::fx::lemma_abs_mul_le(y as int, self.width as int, 0xFFFF_FFFF, 0xFFFF_FFFF);
        }
        let idx: u64 = (y as u64) * (self.width as u64) + (x as u64);
        assert(idx < n);
        self.data[idx as usize]
    }

    /// Linearly remap every channel of every texel, for example from the
    /// byte range into the unit or signed unit range.
    pub fn remap(&mut self, current_min: i64, current_max: i64, new_min: i64, new_max: i64)
        requires
            old(self).wf(),
            fxb(current_min as int),
            fxb(current_max as int),
            fxb(new_min as int),
            fxb(new_max as int),
            current_min != current_max,
        ensures
            final(self).width == old(self).width,
            final(self).height == old(self).height,
            final(self).data@.len() == old(self).data@.len(),
            forall|i: int|
                0 <= i < old(self).data@.len() ==> final(self).data@[i] == spec_remap_vec(
                    old(self).data@[i],
                    current_min as int,
                    current_max as int,
                    new_min as int,
                    new_max as int,
                ),
            final(self).wf(),
    {
        let den = crate::fx::fx_sub(current_max, current_min);
        let span = crate::fx::fx_sub(new_max, new_min);
        let mut i: usize = 0;
        let n = self.data.len();
        while i < n
            invariant
                n == self.data@.len(),
                n == old(self).data@.len(),
                i <= n,
                self.width == old(self).width,
                self.height == old(self).height,
                old(self).wf(),
                den == clip(current_max - current_min),
                den != 0,
                fxb(den as int),
                span == clip(new_max - new_min),
                fxb(span as int),
                fxb(new_min as int),
                fxb(current_min as int),
                forall|j: int|
                    i <= j < n ==> #[trigger] self.data@[j] == old(self).data@[j],
                forall|j: int|
                    0 <= j < i ==> #[trigger] self.data@[j] == spec_remap_vec(
                        old(self).data@[j],
                        current_min as int,
                        current_max as int,
                        new_min as int,
                        new_max as int,
                    ),
            decreases n - i,
        {
            let p = self.data[i];
            proof {
                assert(self.data@[i as int] == old(self).data@[i as int]);
                assert(old(self).data@[i as int].wf());
            }
            let rx = crate::fx::fx_add(
                crate::fx::fx_mul(fx_div(crate::fx::fx_sub(p.x, current_min), den), span),
                new_min,
            );
            let ry = crate::fx::fx_add(
                crate::fx::fx_mul(fx_div(crate::fx::fx_sub(p.y, current_min), den), span),
                new_min,
            );
            let rz = crate::fx::fx_add(
                crate::fx::fx_mul(fx_div(crate::fx::fx_sub(p.z, current_min), den), span),
                new_min,
            );
            self.data[i] = Vec3 { x: rx, y: ry, z: rz };
            i = i + 1;
        }
    }

    /// Remap texel channels from the byte range `[0, 255]` to `[0, 1]`.
    pub fn normalize_from_255(&mut self)
        requires
            old(self).wf(),
        ensures
            final(self).width == old(self).width,
            final(self).height == old(self).height,
            final(self).data@.len() == old(self).data@.len(),
            forall|i: int|
                0 <= i < old(self).data@.len() ==> final(self).data@[i] == spec_remap_vec(
                    old(self).data@[i],
                    0,
                    255 * SCALE as int,
                    0,
                    SCALE as int,
                ),
            final(self).wf(),
    {
        self.remap(0, 255 * SCALE, 0, SCALE)
    }

    /// Remap texel channels from the byte range `[0, 255]` to `[-1, 1]`,
    /// the form a tangent-space normal map is stored in.
    pub fn normalize_from_255_to_full_range(&mut self)
        requires
            old(self).wf(),
        ensures
            final(self).width == old(self).width,
            final(self).height == old(self).height,
            final(self).data@.len() == old(self).data@.len(),
            forall|i: int|
                0 <= i < old(self).data@.len() ==> final(self).data@[i] == spec_remap_vec(
                    old(self).data@[i],
                    0,
                    255 * SCALE as int,
                    -(SCALE as int),
                    SCALE as int,
                ),
            final(self).wf(),
    {
        self.remap(0, 255 * SCALE, -SCALE, SCALE)
    }
}

proof fn lemma_grid_index_in_range(x: int, y: int, w: int, h: int)
    by (nonlinear_arith)
    requires
        0 <= x < w,
        0 <= y < h,
    ensures
        0 <= y * w + x < h * w,
{
}

/// Nearest-neighbor texture lookup by scaled UV coordinate. Outside the
/// unit square with wrapping disabled, the fallback material's color.
pub open spec fn spec_sample_texture(
    uv: Vec2,
    tex: Texture,
    scale: Vec2,
    wrap: bool,
    fb: BasicMaterial,
) -> Vec3 {
    let su = spec_div(uv.x as int, scale.x as int);
    let sv = spec_div(uv.y as int, scale.y as int);
    if !wrap && (su < 0 || su > SCALE || sv < 0 || sv > SCALE) {
        fb.color
    } else {
        let w = tex.width as int;
        let h = tex.height as int;
        let tx = ((su * w) % (w * (SCALE as int))) / (SCALE as int);
        let ty = ((sv * h) % (h * (SCALE as int))) / (SCALE as int);
        tex.data@[ty * w + tx]
    }
}

/// One wrapped-or-clamped texel coordinate: Euclidean remainder of the
/// scaled coordinate, floored to a texel index below `w`.
fn texel_coord(su: i64, w: u32) -> (r: u32)
    requires
        fxb(su as int),
        w >= 1,
    ensures
        r == ((su as int * w as int) % ((w as int) * (SCALE as int))) / (SCALE as int),
        r < w,
{
    proof {
        crate::fx::lemma_abs_mul_le(su as int, w as int, FX_MAX as int, 0x1_0000_0000);
    }
    let p: i128 = (su as i128) * (w as i128);
    let m: i128 = (w as i128) * (SCALE as i128);
    let e: i128 = emod128(p, m);
    let t: i128 = fdiv128(e, SCALE as i128);
    proof {
        vstd::arithmetic::div_mod::lemma_fundamental_div_mod_converse_div(
            (w as int) * (SCALE as int) - 1,
            SCALE as int,
            w as int - 1,
            SCALE as int - 1,
        );
        vstd::arithmetic::div_mod::lemma_div_is_ordered(
            e as int,
            (w as int) * (SCALE as int) - 1,
            SCALE as int,
        );
        vstd::arithmetic::div_mod::lemma_div_pos_is_pos(e as int, SCALE as int);
    }
    t as u32
}

pub fn sample_texture(
    uv: &Vec2,
    texture: &Texture,
    scale: Vec2,
    wrap: bool,
    fallback_material: &BasicMaterial,
) -> (r: Vec3)
    requires
        uv.wf(),
        texture.wf(),
        scale.wf(),
        fallback_material.wf(),
    ensures
        r == spec_sample_texture(*uv, *texture, scale, wrap, *fallback_material),
        r.wf(),
{
    let su = if scale.x == 0 {
        0
    } else {
        fx_div(uv.x, scale.x)
    };
    let sv = if scale.y == 0 {
        0
    } else {
        fx_div(uv.y, scale.y)
    };
    if !wrap && (su < 0 || su > SCALE || sv < 0 || sv > SCALE) {
        fallback_material.color
    } else {
        let tx = texel_coord(su, texture.width);
        let ty = texel_coord(sv, texture.height);
        texture.get_pixel(tx, ty)
    }
}

/// A material textured by an image; properties other than color come from
/// the embedded basic material.
#[derive(Clone, Debug)]
pub struct TexturedMaterial {
    pub texture: Texture,
    pub scale: Vec2,
    pub wrap: bool,
    pub basic_material: BasicMaterial,
}

impl TexturedMaterial {
    pub open spec fn wf(self) -> bool {
        &&& self.texture.wf()
        &&& self.scale.wf()
        &&& self.basic_material.wf()
    }

    pub fn new(texture: Texture, scale: Vec2, wrap: bool, basic_material: BasicMaterial) -> (r:
        TexturedMaterial)
        requires
            texture.wf(),
            basic_material.wf(),
        ensures
            r.texture == texture,
            r.scale.x == clip(scale.x as int),
            r.scale.y == clip(scale.y as int),
            r.wrap == wrap,
            r.basic_material == basic_material,
            r.wf(),
    {
        TexturedMaterial { texture, scale: Vec2::new(scale.x, scale.y), wrap, basic_material }
    }

    pub fn color_at(&self, uv: &Vec2) -> (r: Vec3)
        requires
            self.wf(),
            uv.wf(),
        ensures
            r == spec_sample_texture(*uv, self.texture, self.scale, self.wrap, self.basic_material),
            r.wf(),
    {
        sample_texture(uv, &self.texture, self.scale, self.wrap, &self.basic_material)
    }
}

/// A textured material that additionally carries a tangent-space normal
/// map, pre-remapped into the signed unit range.
#[derive(Clone, Debug)]
pub struct TexturedMaterialWithNormal {
    pub texture: Texture,
    pub normal_map: Texture,
    pub scale: Vec2,
    pub wrap: bool,
    pub normal_map_magnitude_multiplier: i64,
    pub basic_material: BasicMaterial,
}

impl TexturedMaterialWithNormal {
    pub open spec fn wf(self) -> bool {
        &&& self.texture.wf()
        &&& self.normal_map.wf()
        &&& self.scale.wf()
        &&& fxb(self.normal_map_magnitude_multiplier as int)
        &&& self.basic_material.wf()
    }

    /// The normal map is handed over in byte range and remapped here to
    /// the signed unit range, as a normal map is interpreted.
    pub fn new(
        texture: Texture,
        normal_map: Texture,
        scale: Vec2,
        wrap: bool,
        normal_map_magnitude_multiplier: i64,
        basic_material: BasicMaterial,
    ) -> (r: TexturedMaterialWithNormal)
        requires
            texture.wf(),
            normal_map.wf(),
            basic_material.wf(),
        ensures
            r.texture == texture,
            r.normal_map.width == normal_map.width,
            r.normal_map.height == normal_map.height,
            r.normal_map.data@.len() == normal_map.data@.len(),
            forall|i: int|
                0 <= i < normal_map.data@.len() ==> r.normal_map.data@[i] == spec_remap_vec(
                    normal_map.data@[i],
                    0,
                    255 * SCALE as int,
                    -(SCALE as int),
                    SCALE as int,
                ),
            r.scale.x == clip(scale.x as int),
            r.scale.y == clip(scale.y as int),
            r.wrap == wrap,
            r.normal_map_magnitude_multiplier == clip(normal_map_magnitude_multiplier as int),
            r.basic_material == basic_material,
            r.wf(),
    {
        let mut nm = normal_map;
        nm.normalize_from_255_to_full_range();
        TexturedMaterialWithNormal {
            texture,
            normal_map: nm,
            scale: Vec2::new(scale.x, scale.y),
            wrap,
            normal_map_magnitude_multiplier: fx_clip(normal_map_magnitude_multiplier),
            basic_material,
        }
    }

    pub fn color_at(&self, uv: &Vec2) -> (r: Vec3)
        requires
            self.wf(),
            uv.wf(),
        ensures
            r == spec_sample_texture(*uv, self.texture, self.scale, self.wrap, self.basic_material),
            r.wf(),
    {
        sample_texture(uv, &self.texture, self.scale, self.wrap, &self.basic_material)
    }

    pub fn normal_at(&self, uv: &Vec2) -> (r: Vec3)
        requires
            self.wf(),
            uv.wf(),
        ensures
            r == spec_sample_texture(
                *uv,
                self.normal_map,
                self.scale,
                self.wrap,
                self.basic_material,
            ),
            r.wf(),
    {
        sample_texture(uv, &self.normal_map, self.scale, self.wrap, &self.basic_material)
    }
}

/// The closed set of material variants the integrator dispatches over.
#[derive(Clone, Debug)]
pub enum Material {
    Basic(BasicMaterial),
    Checker(CheckerMaterial),
    Textured(TexturedMaterial),
    TexturedWithNormal(TexturedMaterialWithNormal),
}

impl Material {
    pub open spec fn wf(self) -> bool {
        match self {
            Material::Basic(m) => m.wf(),
            Material::Checker(m) => m.wf(),
            Material::Textured(m) => m.wf(),
            Material::TexturedWithNormal(m) => m.wf(),
        }
    }

    /// The embedded basic material every variant defers to for the
    /// non-color properties.
    pub open spec fn spec_basic(self) -> BasicMaterial {
        match self {
            Material::Basic(m) => m,
            Material::Checker(m) => m.basic_material,
            Material::Textured(m) => m.basic_material,
            Material::TexturedWithNormal(m) => m.basic_material,
        }
    }

    pub open spec fn spec_color_at(self, uv: Vec2) -> Vec3 {
        match self {
            Material::Basic(m) => m.color,
            Material::Checker(m) => spec_checker_at(m, uv),
            Material::Textured(m) => spec_sample_texture(
                uv,
                m.texture,
                m.scale,
                m.wrap,
                m.basic_material,
            ),
            Material::TexturedWithNormal(m) => spec_sample_texture(
                uv,
                m.texture,
                m.scale,
                m.wrap,
                m.basic_material,
            ),
        }
    }

    pub open spec fn spec_normal_at(self, uv: Vec2) -> Vec3 {
        match self {
            Material::TexturedWithNormal(m) => spec_sample_texture(
                uv,
                m.normal_map,
                m.scale,
                m.wrap,
                m.basic_material,
            ),
            _ => Vec3 { x: 0, y: 0, z: 0 },
        }
    }

    pub open spec fn spec_normal_mult(self) -> i64 {
        match self {
            Material::TexturedWithNormal(m) => m.normal_map_magnitude_multiplier,
            _ => 0,
        }
    }

    pub fn color_at(&self, uv: &Vec2) -> (r: Vec3)
        requires
            self.wf(),
            uv.wf(),
        ensures
            r == self.spec_color_at(*uv),
            r.wf(),
    {
        match self {
            Material::Basic(m) => m.color_at(uv),
            Material::Checker(m) => m.color_at(uv),
            Material::Textured(m) => m.color_at(uv),
            Material::TexturedWithNormal(m) => m.color_at(uv),
        }
    }

    pub fn ambient_at(&self, uv: &Vec2) -> (r: i64)
        requires
            self.wf(),
        ensures
            r == self.spec_basic().ambient,
            fxb(r as int),
    {
        match self {
            Material::Basic(m) => m.ambient_at(uv),
            Material::Checker(m) => m.ambient_at(uv),
            Material::Textured(m) => m.basic_material.ambient_at(uv),
            Material::TexturedWithNormal(m) => m.basic_material.ambient_at(uv),
        }
    }

    pub fn diffuse_at(&self, uv: &Vec2) -> (r: i64)
        requires
            self.wf(),
        ensures
            r == self.spec_basic().diffuse,
            fxb(r as int),
    {
        match self {
            Material::Basic(m) => m.diffuse_at(uv),
            Material::Checker(m) => m.diffuse_at(uv),
            Material::Textured(m) => m.basic_material.diffuse_at(uv),
            Material::TexturedWithNormal(m) => m.basic_material.diffuse_at(uv),
        }
    }

    pub fn specular_at(&self, uv: &Vec2) -> (r: i64)
        requires
            self.wf(),
        ensures
            r == self.spec_basic().specular,
            fxb(r as int),
    {
        match self {
            Material::Basic(m) => m.specular_at(uv),
            Material::Checker(m) => m.specular_at(uv),
            Material::Textured(m) => m.basic_material.specular_at(uv),
            Material::TexturedWithNormal(m) => m.basic_material.specular_at(uv),
        }
    }

    pub fn reflection_at(&self, uv: &Vec2) -> (r: i64)
        requires
            self.wf(),
        ensures
            r == self.spec_basic().reflection,
            fxb(r as int),
    {
        match self {
            Material::Basic(m) => m.reflection_at(uv),
            Material::Checker(m) => m.reflection_at(uv),
            Material::Textured(m) => m.basic_material.reflection_at(uv),
            Material::TexturedWithNormal(m) => m.basic_material.reflection_at(uv),
        }
    }

    pub fn roughness_at(&self, uv: &Vec2) -> (r: i64)
        requires
            self.wf(),
        ensures
            r == self.spec_basic().roughness,
            fxb(r as int),
    {
        match self {
            Material::Basic(m) => m.roughness_at(uv),
            Material::Checker(m) => m.roughness_at(uv),
            Material::Textured(m) => m.basic_material.roughness_at(uv),
            Material::TexturedWithNormal(m) => m.basic_material.roughness_at(uv),
        }
    }

    pub fn refraction_at(&self, uv: &Vec2) -> (r: i64)
        requires
            self.wf(),
        ensures
            r == self.spec_basic().refraction,
            fxb(r as int),
    {
        match self {
            Material::Basic(m) => m.refraction_at(uv),
            Material::Checker(m) => m.refraction_at(uv),
            Material::Textured(m) => m.basic_material.refraction_at(uv),
            Material::TexturedWithNormal(m) => m.basic_material.refraction_at(uv),
        }
    }

    pub fn refractive_index_at(&self, uv: &Vec2) -> (r: i64)
        requires
            self.wf(),
        ensures
            r == self.spec_basic().refractive_index,
            MIN_REFRACTIVE_INDEX <= r <= FX_MAX,
    {
        match self {
            Material::Basic(m) => m.refractive_index_at(uv),
            Material::Checker(m) => m.refractive_index_at(uv),
            Material::Textured(m) => m.basic_material.refractive_index_at(uv),
            Material::TexturedWithNormal(m) => m.basic_material.refractive_index_at(uv),
        }
    }

    pub fn normal_at(&self, uv: &Vec2) -> (r: Vec3)
        requires
            self.wf(),
            uv.wf(),
        ensures
            r == self.spec_normal_at(*uv),
            r.wf(),
    {
        match self {
            Material::TexturedWithNormal(m) => m.normal_at(uv),
            _ => Vec3::zero(),
        }
    }

    pub fn normal_map_magnitude_multiplier(&self) -> (r: i64)
        requires
            self.wf(),
        ensures
            r == self.spec_normal_mult(),
            fxb(r as int),
    {
        match self {
            Material::TexturedWithNormal(m) => m.normal_map_magnitude_multiplier,
            _ => 0,
        }
    }
}

} // verus!
