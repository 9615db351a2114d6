use vstd::prelude::*;

use crate::color::{background_spec, err_color_spec, Color};
use crate::hits::occludes_spec;
use crate::material::{Material, COEFF_SCALE};

verus! {

/// The direction towards a light as the shading sees it: absent where the
/// shadow ray found an object between the point and the light, so that such
/// a light adds nothing.
pub fn light_dir_unless_shadowed<V>(dir: V, occluded: bool) -> (r: Option<V>)
    ensures
        r == light_dir_spec(dir, occluded),
{
    if occluded {
        None
    } else {
        Some(dir)
    }
}

/// The direction towards a light unless something blocks it.
pub open spec fn light_dir_spec<V>(dir: V, occluded: bool) -> Option<V> {
    if occluded {
        None
    } else {
        Some(dir)
    }
}

/// A light with an object nearer than itself on the shadow ray gives no
/// direction, so it adds nothing to the shading of the point.
pub proof fn lemma_occluded_light_adds_nothing<V>(dir: V, hit: Option<u64>, limit: u64)
    requires
        hit is Some,
        hit->0 < limit,
    ensures
        light_dir_spec(dir, occludes_spec(hit, limit)) is None,
{
}

/// Whether a hit at recursion depth `depth` follows the mirrored ray.
pub open spec fn should_reflect_spec(material: Material, depth: int, max_depth: int) -> bool {
    material.specularity > 0 && depth < max_depth
}

/// Whether a hit at recursion depth `depth` (the primary ray has depth `0`)
/// follows the mirrored ray: only on a reflective surface and below the
/// maximum depth.
pub fn should_reflect(material: &Material, depth: u32, max_depth: u32) -> (b: bool)
    ensures
        b == should_reflect_spec(*material, depth as int, max_depth as int),
{
    material.is_reflective() && depth < max_depth
}

/// A ray is only ever followed below the maximum depth, so the recursion
/// ends after at most `max_depth` reflections, whatever the scene.
pub proof fn lemma_reflection_depth_bounded(material: Material, depth: int, max_depth: int)
    requires
        should_reflect_spec(material, depth, max_depth),
    ensures
        depth + 1 <= max_depth,
{
}

/// The weighted mean of two channels, the weight of `b` given in thousandths.
pub open spec fn mix_channel_spec(a: int, b: int, weight: int) -> int {
    (a * (COEFF_SCALE - weight) + b * weight) / (COEFF_SCALE as int)
}

pub fn mix_channel(a: u8, b: u8, weight: u16) -> (c: u8)
    requires
        weight <= COEFF_SCALE,
    ensures
        c as int == mix_channel_spec(a as int, b as int, weight as int),
{
    let w = weight as u32;
    let (x, y) = (a as u32, b as u32);
    proof {
        assert(x * (1000 - w) <= 255 * 1000) by (nonlinear_arith)
            requires
                x <= 255,
                w <= 1000,
        ;
        assert(y * w <= 255 * 1000) by (nonlinear_arith)
            requires
                y <= 255,
                w <= 1000,
        ;
        assert((x * (1000 - w) + y * w) / 1000 <= 255) by (nonlinear_arith)
            requires
                x <= 255,
                y <= 255,
                w <= 1000,
        ;
    }
    let s = x * (1000 - w) + y * w;
    (s / 1000) as u8
}

/// Blends the color `reflected` into `shaded` with the specularity of the
/// material as the weight of `reflected`.
pub fn blend_reflection(shaded: Color, reflected: Color, material: &Material) -> (c: Color)
    requires
        material.wf(),
    ensures
        is_blend(c, shaded, reflected, *material),
{
    let w = material.specularity;
    Color {
        r: mix_channel(shaded.r, reflected.r, w),
        g: mix_channel(shaded.g, reflected.g, w),
        b: mix_channel(shaded.b, reflected.b, w),
    }
}

/// `c` is `reflected` blended into `shaded` with the specularity of
/// `material` as the weight of `reflected`.
pub open spec fn is_blend(c: Color, shaded: Color, reflected: Color, material: Material) -> bool {
    &&& c.r as int == mix_channel_spec(shaded.r as int, reflected.r as int, material.specularity as int)
    &&& c.g as int == mix_channel_spec(shaded.g as int, reflected.g as int, material.specularity as int)
    &&& c.b as int == mix_channel_spec(shaded.b as int, reflected.b as int, material.specularity as int)
}

/// A surface that mirrors nothing keeps its shaded color: no reflected
/// color is blended in.
pub proof fn lemma_matte_keeps_shaded(shaded: Color, reflected: Color, material: Material)
    requires
        material.specularity == 0,
    ensures
        mix_channel_spec(shaded.r as int, reflected.r as int, material.specularity as int) == shaded.r,
        mix_channel_spec(shaded.g as int, reflected.g as int, material.specularity as int) == shaded.g,
        mix_channel_spec(shaded.b as int, reflected.b as int, material.specularity as int) == shaded.b,
{
}

/// `c` may be the color seen along `ray` at recursion depth `depth`: for
/// some answer of `find_hit`, the background where it finds nothing; else,
/// for some answer of `shade` at the hit, its color where `should_reflect`
/// forbids a reflection, the error color where the material is out of range,
/// and otherwise its color with the color seen along `mirror`'s ray at the
/// next depth blended in.
pub open spec fn traces_to<R, H, FH, FS, FM>(
    find_hit: FH,
    shade: FS,
    mirror: FM,
    ray: R,
    depth: int,
    max_depth: int,
    c: Color,
) -> bool
    where
        FH: Fn(&R) -> Option<H>,
        FS: Fn(&R, &H) -> (Color, Material),
        FM: Fn(&R, &H) -> R,
    decreases max_depth - depth,
{
    exists|o: Option<H>|
        #[trigger] find_hit.ensures((&ray,), o) && match o {
            None => c == background_spec(),
            Some(h) => exists|sm: (Color, Material)|
                #[trigger] shade.ensures((&ray, &h), sm) && if !should_reflect_spec(
                    sm.1,
                    depth,
                    max_depth,
                ) {
                    c == sm.0
                } else if !sm.1.wf() {
                    c == err_color_spec()
                } else {
                    exists|next: R, rc: Color|
                        #[trigger] mirror.ensures((&ray, &h), next) && traces_to(
                            find_hit,
                            shade,
                            mirror,
                            next,
                            depth + 1,
                            max_depth,
                            rc,
                        ) && #[trigger] is_blend(c, sm.0, rc, sm.1)
                },
        }
}

/// At or past the maximum depth no mirrored ray is followed: what a ray
/// shows there is the same whatever `mirror` answers, so objects that only a
/// deeper reflection would meet cannot change it.
pub proof fn lemma_no_reflection_at_max_depth<R, H, FH, FS, FM, FM2>(
    find_hit: FH,
    shade: FS,
    mirror: FM,
    other_mirror: FM2,
    ray: R,
    depth: int,
    max_depth: int,
    c: Color,
)
    where
        FH: Fn(&R) -> Option<H>,
        FS: Fn(&R, &H) -> (Color, Material),
        FM: Fn(&R, &H) -> R,
        FM2: Fn(&R, &H) -> R,
    requires
        depth >= max_depth,
        traces_to(find_hit, shade, mirror, ray, depth, max_depth, c),
    ensures
        traces_to(find_hit, shade, other_mirror, ray, depth, max_depth, c),
{
}

/// Where no surface mirrors anything, a ray shows the same color whatever
/// the maximum depth: no reflected color is ever blended in.
pub proof fn lemma_matte_scene_ignores_max_depth<R, H, FH, FS, FM>(
    find_hit: FH,
    shade: FS,
    mirror: FM,
    ray: R,
    depth: int,
    max_depth: int,
    other_max_depth: int,
    c: Color,
)
    where
        FH: Fn(&R) -> Option<H>,
        FS: Fn(&R, &H) -> (Color, Material),
        FM: Fn(&R, &H) -> R,
    requires
        forall|r: &R, h: &H, sm: (Color, Material)|
            #[trigger] shade.ensures((r, h), sm) ==> sm.1.specularity == 0,
        traces_to(find_hit, shade, mirror, ray, depth, max_depth, c),
    ensures
        traces_to(find_hit, shade, mirror, ray, depth, other_max_depth, c),
{
}

/// The color seen along `ray` at recursion depth `depth` (the primary ray
/// has depth `0`), as [`traces_to`] states it. The recursion stops at
/// `max_depth` whatever the scene.
pub fn trace_ray<R, H, FH, FS, FM>(
    ray: &R,
    depth: u32,
    max_depth: u32,
    find_hit: &FH,
    shade: &FS,
    mirror: &FM,
) -> (c: Color)
    where
        FH: Fn(&R) -> Option<H>,
        FS: Fn(&R, &H) -> (Color, Material),
        FM: Fn(&R, &H) -> R,
    requires
        forall|r: &R| #[trigger] find_hit.requires((r,)),
        forall|r: &R, h: &H| #[trigger] shade.requires((r, h)),
        forall|r: &R, h: &H| #[trigger] mirror.requires((r, h)),
    ensures
        traces_to(*find_hit, *shade, *mirror, *ray, depth as int, max_depth as int, c),
    decreases max_depth - depth,
{
    let o = find_hit(ray);
    proof {
        assert(find_hit.ensures((ray,), o));
    }
    match &o {
        None => Color::background(),
        Some(hit) => {
            let sm = shade(ray, hit);
            proof {
                assert(shade.ensures((ray, hit), sm));
            }
            let (shaded, material) = sm;
            if !should_reflect(&material, depth, max_depth) {
                shaded
            } else if !material.is_valid() {
                Color::err_color()
            } else {
                let next = mirror(ray, hit);
                let reflected = trace_ray(&next, depth + 1, max_depth, find_hit, shade, mirror);
                let c = blend_reflection(shaded, reflected, &material);
                proof {
                    assert(mirror.ensures((ray, hit), next));
                    assert(is_blend(c, sm.0, reflected, sm.1));
                }
                c
            }
        },
    }
}

} // verus!
