//! [`Event`] machinery aiding code generation.
//!
//! Every event set lists its events in a flat table of `(type, name,
//! version)` entries. A table is sound when a name and a version, taken
//! together, belong to one Rust type only.
//!
//! [`Event`]: super::Event

use super::Raw;
use vstd::prelude::*;
use vstd::string::StringSliceAdditionalSpecFns;
use vstd::utf8::encode_utf8;
use vstd::utf8::encode_utf8_decode_utf8;

verus! {

/// What one entry of an event table says: the Rust type of an event, its
/// name and its version.
pub struct Entry {
    /// Identifier of the Rust type.
    pub ty: Seq<char>,
    /// Name of the event.
    pub name: Seq<char>,
    /// Version of the event.
    pub version: int,
}

impl Entry {
    /// Whether two entries give one name and one version to different Rust
    /// types.
    pub open spec fn collides_with(self, other: Entry) -> bool {
        self.ty != other.ty && self.name == other.name && self.version == other.version
    }
}

/// The entries that a table holds, in its order.
pub open spec fn entries(events: Seq<(&str, &str, u16)>) -> Seq<Entry> {
    Seq::new(
        events.len(),
        |i: int| Entry { ty: events[i].0@, name: events[i].1@, version: events[i].2 as int },
    )
}

/// Whether some name and version of the table belong to two different Rust
/// types.
pub open spec fn has_collision(table: Seq<Entry>) -> bool {
    exists|i: int, j: int|
        0 <= i < j < table.len() && (#[trigger] table[i]).collides_with(#[trigger] table[j])
}

impl<Ev: ?Sized, Data> Raw<Ev, Data> {
    /// Table of a [`Raw`] event, which is empty: such an event stands for
    /// the versions that no concrete type covers, and takes no part in the
    /// check.
    #[must_use]
    pub fn __arcana_events() -> (events: [(&'static str, &'static str, u16); 0])
        ensures
            entries(events@) == Seq::<Entry>::empty(),
            !has_collision(entries(events@)),
    {
        []
    }
}

/// Tracking of [`VersionedEvent`]s number.
///
/// [`VersionedEvent`]: super::Versioned
pub trait Versioned {
    /// Number of [`VersionedEvent`]s in this [`Event`].
    ///
    /// [`Event`]: super::Event
    /// [`VersionedEvent`]: super::Versioned
    const COUNT: usize;
}

impl<Ev: ?Sized, Data> Versioned for Raw<Ev, Data> {
    const COUNT: usize = 0;
}

/// Checks whether the given combinations of [`Event::name`] and
/// [`Event::version`] correspond to different Rust types.
///
/// Every entry is compared with every later one. Strings are compared byte by
/// byte.
///
/// [`Event::name`]: super::Event::name
/// [`Event::version`]: super::Event::version
#[must_use]
pub fn has_different_types_with_same_name_and_ver<const N: usize>(
    events: [(&str, &str, u16); N],
) -> (found: bool)
    ensures
        found == has_collision(entries(events@)),
{
    let ghost table = entries(events@);
    let mut outer: usize = 0;
    while outer < N
        invariant
            outer <= N,
            table == entries(events@),
            table.len() == N,
            forall|i: int, j: int|
                0 <= i < outer && i < j < N ==> !(#[trigger] table[i]).collides_with(
                    #[trigger] table[j],
                ),
        decreases N - outer,
    {
        let mut inner: usize = outer + 1;
        while inner < N
            invariant
                outer < inner <= N,
                table == entries(events@),
                table.len() == N,
                forall|j: int|
                    outer < j < inner ==> !table[outer as int].collides_with(#[trigger] table[j]),
            decreases N - inner,
        {
            let (inner_ty, inner_name, inner_ver) = events[inner];
            let (outer_ty, outer_name, outer_ver) = events[outer];
            if !str_eq(inner_ty, outer_ty) && str_eq(inner_name, outer_name) && inner_ver
                == outer_ver {
                assert(table[outer as int].collides_with(table[inner as int]));
                return true;
            }
            inner += 1;
        }
        outer += 1;
    }
    false
}

/// A table in which two entries, wherever they stand, give one name and one
/// version to different Rust types has a collision.
pub proof fn lemma_different_types_collide(table: Seq<Entry>, i: int, j: int)
    requires
        0 <= i < table.len(),
        0 <= j < table.len(),
        table[i].collides_with(table[j]),
    ensures
        has_collision(table),
{
    if i < j {
        assert(table[i].collides_with(table[j]));
    } else {
        assert(i != j);
        assert(table[j].collides_with(table[i]));
    }
}

/// A table in which the entries of one name and one version are all of one
/// Rust type has no collision, however often an entry comes in it.
pub proof fn lemma_same_type_does_not_collide(table: Seq<Entry>)
    requires
        forall|i: int, j: int|
            0 <= i < table.len() && 0 <= j < table.len() && (#[trigger] table[i]).name
                == (#[trigger] table[j]).name && table[i].version == table[j].version
                ==> table[i].ty == table[j].ty,
    ensures
        !has_collision(table),
{
}

/// Whether a table has a collision does not depend on the order in which it
/// was put together of two tables.
pub proof fn lemma_collision_in_any_order(first: Seq<Entry>, second: Seq<Entry>)
    ensures
        has_collision(first + second) == has_collision(second + first),
{
    lemma_collision_moves(first, second);
    lemma_collision_moves(second, first);
}

proof fn lemma_collision_moves(first: Seq<Entry>, second: Seq<Entry>)
    ensures
        has_collision(first + second) ==> has_collision(second + first),
{
    let table = first + second;
    let moved = second + first;
    if has_collision(table) {
        let (i, j) = choose|i: int, j: int|
            0 <= i < j < table.len() && (#[trigger] table[i]).collides_with(#[trigger] table[j]);
        let to = |k: int|
            if k < first.len() {
                k + second.len()
            } else {
                k - first.len()
            };
        assert(moved[to(i)] == table[i]);
        assert(moved[to(j)] == table[j]);
        lemma_different_types_collide(moved, to(i), to(j));
    }
}

/// Compares strings byte by byte.
pub(crate) fn str_eq(l: &str, r: &str) -> (eq: bool)
    ensures
        eq == (l@ == r@),
        eq == (l.spec_bytes() == r.spec_bytes()),
{
    proof {
        lemma_same_bytes_same_chars(l@, r@);
    }
    let (left, right) = (l.as_bytes(), r.as_bytes());
    if left.len() != right.len() {
        return false;
    }
    let mut i: usize = 0;
    while i < left.len()
        invariant
            left@ == l.spec_bytes(),
            right@ == r.spec_bytes(),
            (l.spec_bytes() == r.spec_bytes()) == (l@ == r@),
            left@.len() == right@.len(),
            i <= left@.len(),
            forall|k: int| 0 <= k < i ==> left@[k] == right@[k],
        decreases left@.len() - i,
    {
        if left[i] != right[i] {
            return false;
        }
        i += 1;
    }
    assert(left@ =~= right@);
    true
}

/// Two strings are made of the same bytes exactly when they are made of the
/// same characters.
pub proof fn lemma_same_bytes_same_chars(l: Seq<char>, r: Seq<char>)
    ensures
        (encode_utf8(l) == encode_utf8(r)) == (l == r),
{
    encode_utf8_decode_utf8(l);
    encode_utf8_decode_utf8(r);
}

} // verus!
