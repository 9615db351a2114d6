use vstd::prelude::*;

verus! {

/// The number of steps of a surface coefficient between `0` and `1`:
/// a coefficient is held in thousandths.
pub const COEFF_SCALE: u16 = 1000;

/// How a surface answers light. The three coefficients are in thousandths,
/// so that `1000` stands for `1`.
#[derive(Clone, Copy, Debug, PartialEq, Eq, Structural)]
pub struct Material {
    /// Share of the object's own color that shows without any light.
    pub ambient: u16,
    /// Exponent of the specular falloff: the larger, the smaller the highlight.
    pub smoothness: u32,
    /// Weight of the specular highlight.
    pub flare_intensity: u16,
    /// Weight of the mirrored color in the final color.
    pub specularity: u16,
}

/// The material handed out by a shading path that should not be reached.
pub open spec fn err_material_spec() -> Material {
    Material { ambient: 0, smoothness: 0, flare_intensity: 0, specularity: 0 }
}

impl Material {
    /// Every coefficient lies between `0` and `1`.
    pub open spec fn wf(&self) -> bool {
        &&& self.ambient <= COEFF_SCALE
        &&& self.flare_intensity <= COEFF_SCALE
        &&& self.specularity <= COEFF_SCALE
    }

    /// A material from its coefficients in thousandths, or `None` where one
    /// of them is above `1000`.
    pub fn new(ambient: u16, smoothness: u32, flare_intensity: u16, specularity: u16) -> (m: Option<Material>)
        ensures
            m is Some <==> (ambient <= COEFF_SCALE && flare_intensity <= COEFF_SCALE
                && specularity <= COEFF_SCALE),
            m is Some ==> m->0 == (Material { ambient, smoothness, flare_intensity, specularity }),
    {
        let m = Material { ambient, smoothness, flare_intensity, specularity };
        if m.is_valid() {
            Some(m)
        } else {
            None
        }
    }

    pub fn is_valid(&self) -> (b: bool)
        ensures
            b == self.wf(),
    {
        self.ambient <= COEFF_SCALE && self.flare_intensity <= COEFF_SCALE
            && self.specularity <= COEFF_SCALE
    }

    /// The reserved material that goes with the error color.
    pub fn err_material() -> (m: Material)
        ensures
            m == err_material_spec(),
            m.wf(),
    {
        Material { ambient: 0, smoothness: 0, flare_intensity: 0, specularity: 0 }
    }

    /// Whether the surface mirrors other objects at all.
    pub fn is_reflective(&self) -> (b: bool)
        ensures
            b == (self.specularity > 0),
    {
        self.specularity > 0
    }
}

} // verus!
