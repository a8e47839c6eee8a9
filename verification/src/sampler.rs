//! Sampling one revolution of an orbit as a flat path of coordinates.

use crate::elements::OrbitalElements;
use vstd::prelude::*;

verus! {

/// The `k`-th point of a flat path: three consecutive coordinates.
pub open spec fn path_point<T>(path: Seq<T>, k: int) -> (T, T, T) {
    (path[3 * k], path[3 * k + 1], path[3 * k + 2])
}

/// Whether `path` is a sampling of `steps` points by `position_at`: it holds
/// three coordinates per step, and its `k`-th point is a result of
/// `position_at` for step `k` of `steps`, for every `k` below `steps`.
pub open spec fn is_orbit_path<T, F: Fn(&OrbitalElements<T>, usize, usize) -> (T, T, T)>(
    path: Seq<T>,
    orbital_elements: &OrbitalElements<T>,
    steps: usize,
    position_at: F,
) -> bool {
    &&& path.len() == 3 * steps
    &&& forall|k: int|
        0 <= k < steps ==> position_at.ensures(
            (orbital_elements, k as usize, steps),
            #[trigger] path_point(path, k),
        )
}

/// One orbit, one path. Where `position_at` has a single result for each
/// step, any two samplings of the same orbit at the same number of steps
/// are the same sequence of coordinates.
pub proof fn orbit_path_is_determined<T, F: Fn(&OrbitalElements<T>, usize, usize) -> (T, T, T)>(
    first: Seq<T>,
    second: Seq<T>,
    orbital_elements: &OrbitalElements<T>,
    steps: usize,
    position_at: F,
)
    requires
        is_orbit_path(first, orbital_elements, steps, position_at),
        is_orbit_path(second, orbital_elements, steps, position_at),
        forall|k: usize, p: (T, T, T), q: (T, T, T)|
            k < steps && position_at.ensures((orbital_elements, k, steps), p)
                && position_at.ensures((orbital_elements, k, steps), q) ==> p == q,
    ensures
        first == second,
{
    assert forall|j: int| 0 <= j < first.len() implies first[j] == second[j] by {
        let k = j / 3;
        assert(0 <= k < steps && 3 * k <= j < 3 * k + 3);
        assert(path_point(first, k) == path_point(second, k));
    }
    assert(first =~= second);
}

/// Samples an orbit at `steps` evenly spaced steps of one revolution.
///
/// `position_at(elements, step, steps)` gives the position at the fraction
/// `step / steps` of the period. It is asked for each step from `0` up to,
/// but not including, `steps`, in that order, so the path does not return to
/// its first point. The coordinates are laid out point after point.
pub fn generate_orbit_path<T, F: Fn(&OrbitalElements<T>, usize, usize) -> (T, T, T)>(
    orbital_elements: &OrbitalElements<T>,
    steps: usize,
    position_at: F,
) -> (path: Vec<T>)
    requires
        forall|k: usize| k < steps ==> position_at.requires((orbital_elements, k, steps)),
    ensures
        is_orbit_path(path@, orbital_elements, steps, position_at),
        path@.len() == 3 * steps,
        steps == 0 ==> path@ =~= Seq::<T>::empty(),
{
    let mut path: Vec<T> = Vec::new();
    let mut step: usize = 0;
    while step < steps
        invariant
            step <= steps,
            forall|k: usize| k < steps ==> position_at.requires((orbital_elements, k, steps)),
            path@.len() == 3 * step,
            forall|k: int|
                0 <= k < step ==> position_at.ensures(
                    (orbital_elements, k as usize, steps),
                    #[trigger] path_point(path@, k),
                ),
        decreases steps - step,
    {
        let ghost before = path@;
        let (x, y, z) = position_at(orbital_elements, step, steps);
        path.push(x);
        path.push(y);
        path.push(z);
        proof {
            assert(path_point(path@, step as int) == (x, y, z));
            assert forall|k: int| 0 <= k < step + 1 implies position_at.ensures(
                (orbital_elements, k as usize, steps),
                #[trigger] path_point(path@, k),
            ) by {
                if k < step {
                    assert(path_point(path@, k) == path_point(before, k));
                }
            }
        }
        step = step + 1;
    }
    path
}

} // verus!
