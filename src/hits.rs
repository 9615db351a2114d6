use vstd::prelude::*;

verus! {

/// What one analytic object answered for a ray. A distance is given as a key
/// that orders as the distances do (the bits of a non-negative float do).
#[derive(Clone, Copy, Debug, PartialEq, Eq, Structural)]
pub struct Candidate {
    /// The object is only there for a schematic view.
    pub schematic: bool,
    /// Key of the distance to the intersection, if there is one.
    pub dist: Option<u64>,
}

/// The candidate is a physical hit.
pub open spec fn is_hit(c: Candidate) -> bool {
    !c.schematic && c.dist is Some
}

/// The distance key of a candidate that is a hit.
pub open spec fn key(c: Candidate) -> u64 {
    c.dist->0
}

/// Candidate `i` is a hit, no hit is nearer, and no hit before it is as near.
pub open spec fn is_nearest(cs: Seq<Candidate>, i: int) -> bool {
    &&& 0 <= i < cs.len()
    &&& is_hit(cs[i])
    &&& forall|j: int| 0 <= j < cs.len() && is_hit(#[trigger] cs[j]) ==> key(cs[i]) <= key(cs[j])
    &&& forall|j: int| 0 <= j < i && is_hit(#[trigger] cs[j]) ==> key(cs[i]) < key(cs[j])
}

pub open spec fn has_hit(cs: Seq<Candidate>) -> bool {
    exists|j: int| 0 <= j < cs.len() && is_hit(#[trigger] cs[j])
}

impl Candidate {
    pub fn is_physical_hit(&self) -> (b: bool)
        ensures
            b == is_hit(*self),
    {
        !self.schematic && self.dist.is_some()
    }
}

/// The index of the nearest physical hit among the analytic objects: schematic
/// objects are passed over, and of equally near hits the first one wins.
pub fn nearest_hit(cs: &Vec<Candidate>) -> (r: Option<usize>)
    ensures
        r is None <==> !has_hit(cs@),
        r is Some ==> is_nearest(cs@, r->0 as int),
{
    let mut best: Option<usize> = None;
    let mut best_key: u64 = 0;
    let mut k: usize = 0;
    while k < cs.len()
        invariant
            k <= cs@.len(),
            best is None ==> forall|j: int| 0 <= j < k ==> !is_hit(#[trigger] cs@[j]),
            best is Some ==> {
                let b = best->0 as int;
                &&& b < k
                &&& is_hit(cs@[b])
                &&& key(cs@[b]) == best_key
                &&& forall|j: int| 0 <= j < k && is_hit(#[trigger] cs@[j]) ==> best_key <= key(cs@[j])
                &&& forall|j: int| 0 <= j < b && is_hit(#[trigger] cs@[j]) ==> best_key < key(cs@[j])
            },
        decreases cs@.len() - k,
    {
        let c = cs[k];
        if c.is_physical_hit() {
            let d = c.dist.unwrap();
            if best.is_none() || d < best_key {
                best = Some(k);
                best_key = d;
            }
        }
        k = k + 1;
    }
    proof {
        if best is None {
            assert(!has_hit(cs@));
        }
    }
    best
}

/// Which kind of surface a ray meets first.
#[derive(Clone, Copy, Debug, PartialEq, Eq, Structural)]
pub enum Surface {
    /// An analytic object.
    Traced,
    /// A distance-field object.
    Marched,
}

/// The nearer of the nearest analytic hit and the marched hit, keys as in
/// [`Candidate`]; on a tie the analytic hit wins.
pub open spec fn choose_surface_spec(traced: Option<u64>, marched: Option<u64>) -> Option<Surface> {
    match (traced, marched) {
        (None, None) => None,
        (Some(_), None) => Some(Surface::Traced),
        (None, Some(_)) => Some(Surface::Marched),
        (Some(t), Some(m)) => if m < t {
            Some(Surface::Marched)
        } else {
            Some(Surface::Traced)
        },
    }
}

pub fn choose_surface(traced: Option<u64>, marched: Option<u64>) -> (r: Option<Surface>)
    ensures
        r == choose_surface_spec(traced, marched),
        r is None <==> (traced is None && marched is None),
{
    match (traced, marched) {
        (None, None) => None,
        (Some(_), None) => Some(Surface::Traced),
        (None, Some(_)) => Some(Surface::Marched),
        (Some(t), Some(m)) => if m < t {
            Some(Surface::Marched)
        } else {
            Some(Surface::Traced)
        },
    }
}

/// Whether a hit at distance key `hit` on the way to a light at distance key
/// `limit` blocks that light: only a hit nearer than the light does.
pub open spec fn occludes_spec(hit: Option<u64>, limit: u64) -> bool {
    hit is Some && hit->0 < limit
}

pub fn occludes(hit: Option<u64>, limit: u64) -> (b: bool)
    ensures
        b == occludes_spec(hit, limit),
{
    match hit {
        Some(d) => d < limit,
        None => false,
    }
}

/// A scene without objects: nothing is hit, so every ray shows the
/// background.
pub proof fn lemma_empty_scene_misses(cs: Seq<Candidate>)
    requires
        cs.len() == 0,
    ensures
        !has_hit(cs),
        choose_surface_spec(None, None) is None,
{
}

/// A scene whose analytic objects are all schematic is hit only where a
/// distance-field object is.
pub proof fn lemma_schematic_never_hit(cs: Seq<Candidate>, marched: Option<u64>)
    requires
        forall|j: int| 0 <= j < cs.len() ==> (#[trigger] cs[j]).schematic,
    ensures
        !has_hit(cs),
        choose_surface_spec(None, marched) is Some <==> marched is Some,
{
}

} // verus!
