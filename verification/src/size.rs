//! The size of a subtree: the bytes of the regular files in it.

use vstd::prelude::*;
use crate::entry::EntryKind;
use crate::entry::EntryMetadata;

verus! {

/// What one walked entry adds to the size of its subtree: the length of a
/// readable regular file, and nothing for anything else.
pub open spec fn file_bytes(entry: Option<EntryMetadata>) -> nat {
    match entry {
        Some(m) => if m.kind == EntryKind::File { m.len as nat } else { 0 },
        None => 0,
    }
}

/// The bytes of all regular files among the walked entries. An entry whose
/// metadata could not be read is `None` and adds nothing.
pub open spec fn total_file_bytes(entries: Seq<Option<EntryMetadata>>) -> nat
    decreases entries.len(),
{
    if entries.len() == 0 {
        0
    } else {
        total_file_bytes(entries.drop_last()) + file_bytes(entries.last())
    }
}

/// The size of two walks taken together is the sum of their sizes, so that
/// subtrees that share nothing can be sized apart and added up afterwards.
pub proof fn law_sizes_of_disjoint_walks_add_up(
    front: Seq<Option<EntryMetadata>>,
    back: Seq<Option<EntryMetadata>>,
)
    ensures
        total_file_bytes(front + back) == total_file_bytes(front) + total_file_bytes(back),
    decreases back.len(),
{
    if back.len() == 0 {
        assert(front + back =~= front);
    } else {
        law_sizes_of_disjoint_walks_add_up(front, back.drop_last());
        assert((front + back).drop_last() =~= front + back.drop_last());
    }
}

/// The size of a subtree does not depend on the order in which the walk met
/// its entries: two walks of the same entries give the same size.
pub proof fn law_size_ignores_walk_order(
    one: Seq<Option<EntryMetadata>>,
    other: Seq<Option<EntryMetadata>>,
)
    requires
        one.to_multiset() == other.to_multiset(),
    ensures
        total_file_bytes(one) == total_file_bytes(other),
    decreases one.len(),
{
    one.to_multiset_ensures();
    other.to_multiset_ensures();
    if one.len() > 0 {
        let entry = one.last();
        let front = one.drop_last();
        front.to_multiset_ensures();
        assert(one =~= front.push(entry));
        assert(other.to_multiset().count(entry) > 0);
        assert(other.contains(entry));
        let at = choose|at: int| 0 <= at < other.len() && other[at] == entry;
        let rest = other.remove(at);
        assert(rest.to_multiset() =~= front.to_multiset());
        law_size_ignores_walk_order(front, rest);
        let before = other.take(at);
        let after = other.skip(at + 1);
        assert(other =~= before.push(entry) + after);
        assert(rest =~= before + after);
        law_sizes_of_disjoint_walks_add_up(before.push(entry), after);
        law_sizes_of_disjoint_walks_add_up(before, after);
        assert(before.push(entry).drop_last() =~= before);
    }
}

/// Cutting a walk short never raises the total: every entry adds zero or more.
pub proof fn lemma_total_file_bytes_prefix(entries: Seq<Option<EntryMetadata>>, n: int)
    requires
        0 <= n <= entries.len(),
    ensures
        total_file_bytes(entries.take(n)) <= total_file_bytes(entries),
    decreases entries.len() - n,
{
    if n < entries.len() {
        lemma_total_file_bytes_prefix(entries, n + 1);
        assert(entries.take(n + 1).drop_last() =~= entries.take(n));
    } else {
        assert(entries.take(n) =~= entries);
    }
}

/// The size of a subtree whose walk gave `entries`: the sum of the byte
/// lengths of its regular files, when that sum fits in 64 bits, and `None`
/// when it does not.
pub fn checked_dir_size(entries: &Vec<Option<EntryMetadata>>) -> (size: Option<u64>)
    ensures
        size is Some <==> total_file_bytes(entries@) <= u64::MAX,
        size is Some ==> size->0 == total_file_bytes(entries@),
{
    let mut size: u64 = 0;
    let mut i: usize = 0;
    while i < entries.len()
        invariant
            i <= entries.len(),
            size == total_file_bytes(entries@.take(i as int)),
        decreases entries.len() - i,
    {
        proof {
            assert(entries@.take(i + 1).drop_last() =~= entries@.take(i as int));
            lemma_total_file_bytes_prefix(entries@, i + 1);
        }
        if let Some(metadata) = &entries[i] {
            if metadata.is_file() {
                match size.checked_add(metadata.len) {
                    Some(sum) => {
                        size = sum;
                    },
                    None => {
                        return None;
                    },
                }
            }
        }
        i += 1;
    }
    proof {
        assert(entries@.take(i as int) =~= entries@);
    }
    Some(size)
}

/// The size of a subtree whose walk gave `entries`: the sum of the byte
/// lengths of its regular files. Directories, links, special files and
/// entries that could not be read add nothing.
pub fn calculate_dir_size(entries: &Vec<Option<EntryMetadata>>) -> (size: u64)
    requires
        total_file_bytes(entries@) <= u64::MAX,
    ensures
        size == total_file_bytes(entries@),
{
    checked_dir_size(entries).unwrap()
}

} // verus!
