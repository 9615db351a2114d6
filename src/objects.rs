use vstd::prelude::*;

use crate::color::{err_color_spec, Color};
use crate::material::{err_material_spec, Material};

verus! {

/// A vector type with a zero vector.
pub trait Origin: Sized {
    /// Whether the vector is the zero vector.
    spec fn is_origin(&self) -> bool;

    /// The zero vector.
    fn origin() -> (r: Self)
        ensures
            r.is_origin(),
    ;
}

/// Integer vectors, as on a grid.
impl Origin for (i64, i64, i64) {
    open spec fn is_origin(&self) -> bool {
        self.0 == 0 && self.1 == 0 && self.2 == 0
    }

    fn origin() -> (r: (i64, i64, i64)) {
        (0, 0, 0)
    }
}

/// Whether an object only marks something for a schematic view and takes
/// no part in hits and shadows. Objects are physical unless they say
/// otherwise.
pub trait Schematic {
    fn is_schematic(&self) -> bool {
        false
    }
}

/// What every surface answers about a point on it. `P` is the type of
/// points and vectors.
pub trait Object<P>: Schematic {
    fn get_color(&self, pos: P) -> Color;

    fn get_normal(&self, pos: P) -> P;

    fn get_material(&self, pos: P) -> Material;
}

/// The object that stands where no real object applies: it answers with the
/// error color and material and a zero normal, and it is schematic.
pub struct DummyObject;

impl DummyObject {
    pub fn color_at<P>(&self, _pos: P) -> (c: Color)
        ensures
            c == err_color_spec(),
    {
        Color::err_color()
    }

    pub fn material_at<P>(&self, _pos: P) -> (m: Material)
        ensures
            m == err_material_spec(),
    {
        Material::err_material()
    }

    pub fn schematic(&self) -> (b: bool)
        ensures
            b,
    {
        true
    }
}

impl<P: Origin> Object<P> for DummyObject {
    fn get_color(&self, pos: P) -> (c: Color)
        ensures
            c == err_color_spec(),
    {
        self.color_at(pos)
    }

    fn get_normal(&self, _pos: P) -> (n: P)
        ensures
            n.is_origin(),
    {
        P::origin()
    }

    fn get_material(&self, pos: P) -> (m: Material)
        ensures
            m == err_material_spec(),
    {
        self.material_at(pos)
    }
}

impl Schematic for DummyObject {
    fn is_schematic(&self) -> (b: bool)
        ensures
            b,
    {
        self.schematic()
    }
}

} // verus!
