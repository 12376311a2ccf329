use vstd::prelude::*;

verus! {

/// What became of a ray that was traced into the scene.
#[derive(Clone, Copy, Debug, PartialEq, Eq, Structural)]
pub enum Surface {
    /// The ray left the scene: it sees the sky.
    Missed,
    /// The ray hit a surface whose material sent a new ray on.
    Scattered,
    /// The ray hit a surface whose material absorbed it.
    Absorbed,
}

/// What a path does after one of its rays was traced.
#[derive(Clone, Copy, Debug, PartialEq, Eq, Structural)]
pub enum Step {
    /// Trace the scattered ray, as bounce number `depth` of the path.
    Trace { depth: u32 },
    /// The path ends in the sky after `bounces` bounces; each bounce halves
    /// the sky's color.
    Sky { bounces: u32 },
    /// The path ends without light: absorbed, or out of bounces.
    Black,
}

/// The step that follows a ray traced after `depth` bounces, in a path that
/// may bounce fewer than `max_depth` times.
pub open spec fn step_after(depth: nat, max_depth: nat, surface: Surface) -> Step {
    match surface {
        Surface::Missed => Step::Sky { bounces: depth as u32 },
        Surface::Absorbed => Step::Black,
        Surface::Scattered => if depth + 1 < max_depth {
            Step::Trace { depth: (depth + 1) as u32 }
        } else {
            Step::Black
        },
    }
}

/// Decides how a path goes on once the ray traced after `depth` bounces has
/// met `surface`. A path never grows to `max_depth` bounces: a ray scattered
/// at the last allowed bounce ends the path in black.
pub fn next_step(depth: u32, max_depth: u32, surface: Surface) -> (r: Step)
    requires
        depth < max_depth,
    ensures
        r == step_after(depth as nat, max_depth as nat, surface),
        r matches Step::Trace { depth: d } ==> depth < d < max_depth,
{
    match surface {
        Surface::Missed => Step::Sky { bounces: depth },
        Surface::Absorbed => Step::Black,
        Surface::Scattered => {
            if depth + 1 < max_depth {
                Step::Trace { depth: depth + 1 }
            } else {
                Step::Black
            }
        },
    }
}

/// What tracing one ray of a path gives: the ray left the scene, or it hit a
/// surface that sent the scattered ray on, or one that absorbed it.
pub enum Hop<R> {
    Missed,
    Scattered(R),
    Absorbed,
}

/// How a path of rays ends.
pub enum Ending<R> {
    /// The last ray of the path left the scene after `bounces` bounces.
    Sky { ray: R, bounces: u32 },
    /// The path was absorbed, or ran out of bounces.
    Black,
}

/// Whether `path` is a chain of rays from `start` along which `hop` scattered
/// each ray into the next.
pub open spec fn is_chain<R, F: Fn(&R) -> Hop<R>>(hop: F, start: R, path: Seq<R>) -> bool {
    &&& path.len() > 0
    &&& path[0] == start
    &&& forall|i: int|
        0 <= i < path.len() - 1 ==> #[trigger] hop.ensures((&path[i],), Hop::Scattered(path[i + 1]))
}

/// Follows a ray through the scene: `hop` traces one ray. A scattered ray is
/// traced in turn, up to `max_depth` rays in all; the path ends when a ray
/// leaves the scene or is absorbed, and in black when the last allowed ray
/// scatters once more.
pub fn trace_path<R, F: Fn(&R) -> Hop<R>>(ray: R, max_depth: u32, hop: F) -> (r: Ending<R>)
    requires
        max_depth > 0,
        forall|q: &R| #[trigger] hop.requires((q,)),
    ensures
        r matches Ending::Sky { ray: last, bounces } ==> exists|path: Seq<R>|
            {
                &&& is_chain(hop, ray, path)
                &&& path.len() == bounces + 1
                &&& bounces < max_depth
                &&& path.last() == last
                &&& hop.ensures((&last,), Hop::Missed)
            },
        r is Black ==> exists|path: Seq<R>|
            {
                &&& is_chain(hop, ray, path)
                &&& path.len() <= max_depth
                &&& {
                    ||| hop.ensures((&path.last(),), Hop::Absorbed)
                    ||| path.len() == max_depth && exists|next: R|
                        #[trigger] hop.ensures((&path.last(),), Hop::Scattered(next))
                }
            },
{
    let mut current = ray;
    let mut depth: u32 = 0;
    let ghost mut path: Seq<R> = seq![current];
    loop
        invariant
            depth < max_depth,
            forall|q: &R| #[trigger] hop.requires((q,)),
            is_chain(hop, ray, path),
            path.len() == depth + 1,
            path.last() == current,
        decreases max_depth - depth,
    {
        let outcome = hop(&current);
        match outcome {
            Hop::Missed => {
                return Ending::Sky { ray: current, bounces: depth };
            },
            Hop::Absorbed => {
                return Ending::Black;
            },
            Hop::Scattered(next) => {
                match next_step(depth, max_depth, Surface::Scattered) {
                    Step::Trace { depth: d } => {
                        proof {
                            path = path.push(next);
                            assert forall|i: int| 0 <= i < path.len() - 1 implies #[trigger] hop.ensures(
                                (&path[i],),
                                Hop::Scattered(path[i + 1]),
                            ) by {
                                if i < path.len() - 2 {
                                    assert(path[i] == path.drop_last()[i]);
                                }
                            }
                        }
                        current = next;
                        depth = d;
                    },
                    _ => {
                        return Ending::Black;
                    },
                }
            },
        }
    }
}

} // verus!
