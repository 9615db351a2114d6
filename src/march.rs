use vstd::prelude::*;

verus! {

/// What one step of sphere marching decides at the current state.
#[derive(Clone, Copy, Debug, PartialEq, Eq)]
pub enum MarchStep<S> {
    /// The surface is reached here.
    Hit,
    /// The ray has left the scene.
    Miss,
    /// Go on from the given state.
    Advance(S),
}

/// Marching from `s` with `n` steps left may end in `r`: `None` once no
/// step is left; else, for some answer of `step` at `s`, the state itself
/// on `Hit`, `None` on `Miss`, and the march from the next state with one
/// step less on `Advance`.
pub open spec fn marches_to<S, F: Fn(&S) -> MarchStep<S>>(step: F, s: S, n: nat, r: Option<S>) -> bool
    decreases n,
{
    if n == 0 {
        r is None
    } else {
        exists|o: MarchStep<S>|
            #[trigger] step.ensures((&s,), o) && match o {
                MarchStep::Hit => r == Some(s),
                MarchStep::Miss => r is None,
                MarchStep::Advance(t) => marches_to(step, t, (n - 1) as nat, r),
            }
    }
}

/// Sphere marching from `start`: asks `step` at each state whether the
/// surface is reached, the ray has left the scene, or where to go on, and
/// gives up as a miss after `max_steps` steps, so that a ray grazing a
/// surface cannot march forever. Returns the state where the surface was
/// reached.
pub fn march<S, F: Fn(&S) -> MarchStep<S>>(start: S, max_steps: usize, step: &F) -> (r: Option<S>)
    requires
        forall|s: &S| #[trigger] step.requires((s,)),
    ensures
        marches_to(*step, start, max_steps as nat, r),
    decreases max_steps,
{
    if max_steps == 0 {
        return None;
    }
    let o = step(&start);
    proof {
        assert(step.ensures((&start,), o));
    }
    match o {
        MarchStep::Hit => Some(start),
        MarchStep::Miss => None,
        MarchStep::Advance(next) => march(next, max_steps - 1, step),
    }
}

} // verus!
