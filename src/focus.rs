use vstd::prelude::*;

use crate::geometry::{Direction, Rectangle};

verus! {

/// A window as seen by the focus search: an identifier and its frame.
#[derive(Clone, Copy, Debug)]
pub struct WindowRef {
    pub id: u64,
    pub rect: Rectangle,
}

impl PartialEq for WindowRef {
    /// Two references are equal when they name the same window.
    fn eq(&self, other: &WindowRef) -> (r: bool) {
        self.id == other.id
    }
}

impl vstd::std_specs::cmp::PartialEqSpecImpl for WindowRef {
    open spec fn obeys_eq_spec() -> bool {
        true
    }

    open spec fn eq_spec(&self, other: &WindowRef) -> bool {
        self.id == other.id
    }
}

impl Eq for WindowRef {}

/// How far `candidate` lies from `current` when moving in `direction`, or
/// `None` when it is no target in that direction.
///
/// A candidate for `Left` or `Right` must share a row with `current`, one for
/// `Up` or `Down` a column. A candidate that is clear of `current` on the
/// requested side is at the distance of the gap between them; one that
/// overlaps `current` but reaches at least as far on that side is at distance
/// zero; any other is no target.
pub open spec fn spec_distance(current: Rectangle, candidate: Rectangle, direction: Direction) -> Option<int> {
    match direction {
        Direction::Left => {
            if candidate.spec_vertically_disjoint(current) {
                None
            } else if candidate.right <= current.left {
                Some(current.left - candidate.right)
            } else if candidate.left <= current.left {
                Some(0)
            } else {
                None
            }
        },
        Direction::Right => {
            if candidate.spec_vertically_disjoint(current) {
                None
            } else if candidate.left >= current.right {
                Some(candidate.left - current.right)
            } else if candidate.right >= current.right {
                Some(0)
            } else {
                None
            }
        },
        Direction::Up => {
            if candidate.spec_horizontally_disjoint(current) {
                None
            } else if candidate.bottom <= current.top {
                Some(current.top - candidate.bottom)
            } else if candidate.top <= current.top {
                Some(0)
            } else {
                None
            }
        },
        Direction::Down => {
            if candidate.spec_horizontally_disjoint(current) {
                None
            } else if candidate.top >= current.bottom {
                Some(candidate.top - current.bottom)
            } else if candidate.bottom >= current.bottom {
                Some(0)
            } else {
                None
            }
        },
    }
}

/// The gap between two coordinates, `hi - lo`, for `lo <= hi`.
fn gap(lo: i64, hi: i64) -> (r: u64)
    requires
        lo <= hi,
    ensures
        r == hi - lo,
{
    (hi as i128 - lo as i128) as u64
}

/// Computes `spec_distance` on machine integers.
pub fn distance(current: &Rectangle, candidate: &Rectangle, direction: Direction) -> (r: Option<u64>)
    ensures
        match spec_distance(*current, *candidate, direction) {
            Some(d) => r == Some(d as u64) && d == r->0,
            None => r is None,
        },
{
    match direction {
        Direction::Left => {
            if candidate.vertically_disjoint(current) {
                None
            } else if candidate.right <= current.left {
                Some(gap(candidate.right, current.left))
            } else if candidate.left <= current.left {
                Some(0)
            } else {
                None
            }
        },
        Direction::Right => {
            if candidate.vertically_disjoint(current) {
                None
            } else if candidate.left >= current.right {
                Some(gap(current.right, candidate.left))
            } else if candidate.right >= current.right {
                Some(0)
            } else {
                None
            }
        },
        Direction::Up => {
            if candidate.horizontally_disjoint(current) {
                None
            } else if candidate.bottom <= current.top {
                Some(gap(candidate.bottom, current.top))
            } else if candidate.top <= current.top {
                Some(0)
            } else {
                None
            }
        },
        Direction::Down => {
            if candidate.horizontally_disjoint(current) {
                None
            } else if candidate.top >= current.bottom {
                Some(gap(current.bottom, candidate.top))
            } else if candidate.bottom >= current.bottom {
                Some(0)
            } else {
                None
            }
        },
    }
}

/// `windows[i]` is another window than `current` and a target in `direction`.
pub open spec fn is_candidate(windows: Seq<WindowRef>, current: WindowRef, direction: Direction, i: int) -> bool {
    &&& 0 <= i < windows.len()
    &&& windows[i].id != current.id
    &&& spec_distance(current.rect, windows[i].rect, direction) is Some
}

/// The distance of `windows[i]` from `current` in `direction`.
pub open spec fn distance_at(windows: Seq<WindowRef>, current: WindowRef, direction: Direction, i: int) -> int {
    spec_distance(current.rect, windows[i].rect, direction)->0
}

/// `windows[i]` is the first of the closest candidates.
pub open spec fn is_closest(windows: Seq<WindowRef>, current: WindowRef, direction: Direction, i: int) -> bool {
    &&& is_candidate(windows, current, direction, i)
    &&& forall|j: int| #![trigger is_candidate(windows, current, direction, j)]
        is_candidate(windows, current, direction, j) ==> {
            &&& distance_at(windows, current, direction, i) <= distance_at(windows, current, direction, j)
            &&& j < i ==> distance_at(windows, current, direction, i) < distance_at(windows, current, direction, j)
        }
}

/// Some window of `windows` has the identifier of `current`.
pub open spec fn is_member(windows: Seq<WindowRef>, current: WindowRef) -> bool {
    exists|k: int| 0 <= k < windows.len() && windows[k].id == current.id
}

/// What the focus search returns: nothing when `current` is not among
/// `windows` or no other window is a target in `direction`, and otherwise the
/// first of the candidates at the smallest distance.
pub open spec fn is_target(windows: Seq<WindowRef>, current: WindowRef, direction: Direction, r: Option<WindowRef>) -> bool {
    match r {
        None => !is_member(windows, current)
            || forall|j: int| !#[trigger] is_candidate(windows, current, direction, j),
        Some(w) => is_member(windows, current) && exists|i: int|
            #[trigger] is_closest(windows, current, direction, i) && windows[i] == w,
    }
}

/// Finds the window to focus when moving from `current` in `direction`.
pub fn find_target(windows: &Vec<WindowRef>, current: &WindowRef, direction: Direction) -> (r: Option<WindowRef>)
    ensures
        is_target(windows@, *current, direction, r),
{
    let mut member = false;
    let mut best: Option<WindowRef> = None;
    let mut best_dist: u64 = 0;
    let ghost mut best_index: int = -1;
    let mut i: usize = 0;
    while i < windows.len()
        invariant
            0 <= i <= windows.len(),
            member == exists|k: int| 0 <= k < i && windows@[k].id == current.id,
            best is None ==> forall|j: int| 0 <= j < i ==> !#[trigger] is_candidate(windows@, *current, direction, j),
            best is Some ==> {
                &&& 0 <= best_index < i
                &&& is_candidate(windows@, *current, direction, best_index)
                &&& windows@[best_index] == best->0
                &&& distance_at(windows@, *current, direction, best_index) == best_dist
                &&& forall|j: int| 0 <= j < i && #[trigger] is_candidate(windows@, *current, direction, j) ==> {
                    &&& best_dist <= distance_at(windows@, *current, direction, j)
                    &&& j < best_index ==> best_dist < distance_at(windows@, *current, direction, j)
                }
            },
        decreases windows.len() - i,
    {
        let w = windows[i];
        if w.id == current.id {
            member = true;
        } else {
            match distance(&current.rect, &w.rect, direction) {
                Some(d) => {
                    if best.is_none() || d < best_dist {
                        best = Some(w);
                        best_dist = d;
                        proof {
                            best_index = i as int;
                        }
                    }
                },
                None => {},
            }
        }
        i += 1;
    }
    if member {
        proof {
            if best is Some {
                assert(is_closest(windows@, *current, direction, best_index));
            }
        }
        best
    } else {
        None
    }
}

/// A window that shares no row with the current one is never the target of a
/// move to the left or right, and one that shares no column with it never
/// the target of a move up or down.
pub proof fn lemma_disjoint_never_target(
    windows: Seq<WindowRef>,
    current: WindowRef,
    direction: Direction,
    r: Option<WindowRef>,
)
    requires
        is_target(windows, current, direction, r),
        r is Some,
    ensures
        (direction == Direction::Left || direction == Direction::Right)
            ==> !r->0.rect.spec_vertically_disjoint(current.rect),
        (direction == Direction::Up || direction == Direction::Down)
            ==> !r->0.rect.spec_horizontally_disjoint(current.rect),
{
    let i = choose|i: int| #[trigger] is_closest(windows, current, direction, i) && windows[i] == r->0;
    assert(is_candidate(windows, current, direction, i));
}

/// On a workspace with a single window there is no target in any direction.
pub proof fn lemma_single_window_no_target(
    windows: Seq<WindowRef>,
    current: WindowRef,
    direction: Direction,
    r: Option<WindowRef>,
)
    requires
        windows.len() == 1,
        is_target(windows, current, direction, r),
    ensures
        r is None,
{
    if r is Some {
        let i = choose|i: int| #[trigger] is_closest(windows, current, direction, i) && windows[i] == r->0;
        assert(is_candidate(windows, current, direction, i));
        let k = choose|k: int| 0 <= k < windows.len() && windows[k].id == current.id;
        assert(k == 0 && i == 0);
    }
}

} // verus!
