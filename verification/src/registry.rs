//! Lookup in a table of slots: the first occupied slot that matches wins and
//! the search stops there.
use vstd::prelude::*;

verus! {

/// Whether slot `i` is occupied by an entry that matches.
pub open spec fn hits<T>(table: Seq<Option<T>>, wanted: spec_fn(T) -> bool, i: int) -> bool {
    &&& 0 <= i < table.len()
    &&& table[i] is Some
    &&& wanted(table[i]->Some_0)
}

/// Whether slot `i` is the first that is occupied by an entry that matches.
pub open spec fn is_first_hit<T>(table: Seq<Option<T>>, wanted: spec_fn(T) -> bool, i: int) -> bool {
    &&& hits(table, wanted, i)
    &&& forall|j: int| 0 <= j < i ==> !hits(table, wanted, j)
}

/// The first slot that is occupied by an entry that matches, if there is
/// one.
pub open spec fn first_hit<T>(table: Seq<Option<T>>, wanted: spec_fn(T) -> bool) -> Option<int> {
    if exists|i: int| is_first_hit(table, wanted, i) {
        Some(choose|i: int| is_first_hit(table, wanted, i))
    } else {
        None
    }
}

/// A slot that matches with none before it is the one that the search
/// gives.
pub proof fn lemma_first_hit_found<T>(table: Seq<Option<T>>, wanted: spec_fn(T) -> bool, i: int)
    requires
        is_first_hit(table, wanted, i),
    ensures
        first_hit(table, wanted) == Some(i),
{
    let k = choose|k: int| is_first_hit(table, wanted, k);
    assert(is_first_hit(table, wanted, k));
    if k < i {
        assert(!hits(table, wanted, k));
    }
    if i < k {
        assert(!hits(table, wanted, i));
    }
}

/// Where no slot matches, the search gives nothing.
pub proof fn lemma_first_hit_missing<T>(table: Seq<Option<T>>, wanted: spec_fn(T) -> bool)
    requires
        forall|j: int| 0 <= j < table.len() ==> !hits(table, wanted, j),
    ensures
        first_hit(table, wanted) is None,
{
    if exists|i: int| is_first_hit(table, wanted, i) {
        let k = choose|k: int| is_first_hit(table, wanted, k);
        assert(hits(table, wanted, k));
    }
}

/// What the search gives is a slot that matches, with none before it; it
/// gives nothing only where no slot matches.
pub proof fn lemma_first_hit_is_first<T>(table: Seq<Option<T>>, wanted: spec_fn(T) -> bool)
    ensures
        match first_hit(table, wanted) {
            Some(i) => is_first_hit(table, wanted, i),
            None => forall|j: int| 0 <= j < table.len() ==> !hits(table, wanted, j),
        },
{
    if exists|i: int| is_first_hit(table, wanted, i) {
    } else {
        assert forall|j: int| 0 <= j < table.len() implies !hits(table, wanted, j) by {
            if hits(table, wanted, j) {
                lemma_some_hit_has_first(table, wanted, j);
            }
        }
    }
}

/// Where some slot matches, some slot is the first to match.
pub proof fn lemma_some_hit_has_first<T>(table: Seq<Option<T>>, wanted: spec_fn(T) -> bool, j: int)
    requires
        hits(table, wanted, j),
    ensures
        exists|i: int| is_first_hit(table, wanted, i),
    decreases j,
{
    if exists|k: int| 0 <= k < j && hits(table, wanted, k) {
        let k = choose|k: int| 0 <= k < j && hits(table, wanted, k);
        lemma_some_hit_has_first(table, wanted, k);
    } else {
        assert(is_first_hit(table, wanted, j));
    }
}

/// A search sees only whether each slot matches: two tables of the same
/// length whose slots match alike give the same slot.
pub proof fn lemma_first_hit_alike<T, U>(
    table: Seq<Option<T>>,
    wanted: spec_fn(T) -> bool,
    other: Seq<Option<U>>,
    other_wanted: spec_fn(U) -> bool,
)
    requires
        table.len() == other.len(),
        forall|j: int| 0 <= j < table.len() ==> hits(table, wanted, j) == hits(other, other_wanted, j),
    ensures
        first_hit(table, wanted) == first_hit(other, other_wanted),
{
    lemma_first_hit_is_first(table, wanted);
    match first_hit(table, wanted) {
        Some(i) => {
            assert(hits(other, other_wanted, i));
            assert forall|j: int| 0 <= j < i implies !hits(other, other_wanted, j) by {
                assert(!hits(table, wanted, j));
            }
            lemma_first_hit_found(other, other_wanted, i);
        },
        None => {
            assert forall|j: int| 0 <= j < other.len() implies !hits(other, other_wanted, j) by {
                assert(!hits(table, wanted, j));
            }
            lemma_first_hit_missing(other, other_wanted);
        },
    }
}

/// Replacing an entry by one that matches exactly when the old one did
/// leaves every search where it was.
pub proof fn lemma_first_hit_update<T>(
    table: Seq<Option<T>>,
    wanted: spec_fn(T) -> bool,
    i: int,
    entry: T,
)
    requires
        0 <= i < table.len(),
        table[i] is Some,
        wanted(table[i]->Some_0) == wanted(entry),
    ensures
        first_hit(table.update(i, Some(entry)), wanted) == first_hit(table, wanted),
{
    let updated = table.update(i, Some(entry));
    assert forall|j: int| 0 <= j < table.len() implies hits(updated, wanted, j) == hits(
        table,
        wanted,
        j,
    ) by {}
    lemma_first_hit_alike(updated, wanted, table, wanted);
}

} // verus!
