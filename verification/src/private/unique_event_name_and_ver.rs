//! Utils for ensuring that every event of an event set has a unique
//! combination of name and version.
//!
//! An event set lists the names and versions of its events in an array of a
//! fixed size. The first slots of the array are occupied, the rest of them are
//! [`None`]: the first [`None`] ends the list, and so does the end of the
//! array.

use crate::es::event::codegen::str_eq;
use vstd::prelude::*;

verus! {

/// Whether the first `n` slots of `events` are all occupied.
pub open spec fn occupied(events: Seq<Option<(&str, u16)>>, n: int) -> bool {
    0 <= n <= events.len() && forall|k: int| 0 <= k < n ==> (#[trigger] events[k]) is Some
}

/// Whether the occupied slots `i` and `j` of `events` hold the same name and
/// the same version.
pub open spec fn repeats(events: Seq<Option<(&str, u16)>>, i: int, j: int) -> bool {
    &&& events[i] matches Some(first)
    &&& events[j] matches Some(second)
    &&& first.0@ == second.0@
    &&& first.1 == second.1
}

/// Whether a name and a version come twice in the list that `events` holds:
/// in two of the slots that stand before the first empty one.
pub open spec fn has_repetition(events: Seq<Option<(&str, u16)>>) -> bool {
    exists|i: int, j: int| 0 <= i < j && occupied(events, j + 1) && #[trigger] repeats(events, i, j)
}

/// Checks whether every combination of name and version in the list that
/// `events` holds comes once.
#[must_use]
pub fn all_unique<const N: usize>(events: [Option<(&str, u16)>; N]) -> (unique: bool)
    ensures
        unique == !has_repetition(events@),
{
    let mut outer: usize = 0;
    while outer < N
        invariant
            outer <= N,
            occupied(events@, outer as int),
            forall|i: int, j: int|
                0 <= i < outer && i < j && occupied(events@, j + 1) ==> !#[trigger] repeats(
                    events@,
                    i,
                    j,
                ),
        decreases N - outer,
    {
        match events[outer] {
            None => {
                assert forall|i: int, j: int|
                    0 <= i < j && occupied(events@, j + 1) implies !#[trigger] repeats(
                    events@,
                    i,
                    j,
                ) by {
                    if i >= outer {
                        assert(events@[outer as int] is Some);
                    }
                }
                return true;
            },
            Some((outer_name, outer_ver)) => {
                let mut inner: usize = outer + 1;
                while inner < N
                    invariant_except_break
                        outer < inner <= N,
                        occupied(events@, inner as int),
                        forall|j: int|
                            outer < j < inner ==> !#[trigger] repeats(events@, outer as int, j),
                    invariant
                        outer < N,
                        events@[outer as int] == Some((outer_name, outer_ver)),
                    ensures
                        forall|j: int|
                            outer < j && occupied(events@, j + 1) ==> !#[trigger] repeats(
                                events@,
                                outer as int,
                                j,
                            ),
                    decreases N - inner,
                {
                    match events[inner] {
                        None => {
                            assert forall|j: int|
                                outer < j && occupied(events@, j + 1) implies !#[trigger] repeats(
                                events@,
                                outer as int,
                                j,
                            ) by {
                                if j >= inner {
                                    assert(events@[inner as int] is Some);
                                }
                            }
                            break ;
                        },
                        Some((inner_name, inner_ver)) => {
                            if str_eq(inner_name, outer_name) && inner_ver == outer_ver {
                                assert(repeats(events@, outer as int, inner as int));
                                assert(occupied(events@, inner + 1));
                                return false;
                            }
                            inner += 1;
                        },
                    }
                }
                outer += 1;
            },
        }
    }
    true
}

} // verus!
