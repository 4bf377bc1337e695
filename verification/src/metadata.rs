//! Capability entries and how a table of them is searched.

use crate::interface::{base_interface, InterfaceId};
use vstd::prelude::*;

verus! {

/// One line of a capability table: the concrete type implements the
/// interface `typeid`, and `vtable` is the dispatch table that serves it.
///
/// A dispatch table is an opaque machine word. It is never read as data; it
/// is only ever paired with the address of an object.
#[derive(Clone, Copy, Debug, PartialEq, Eq, Structural)]
pub struct MetadataEntry {
    /// The interface that this entry stands for.
    pub typeid: InterfaceId,
    /// The dispatch table of the concrete type for that interface.
    pub vtable: usize,
}

/// The base capability: an object that can be cast says which capability
/// table its concrete type has, through whatever interface it is reached.
pub trait ObjBase {
    /// The capability table of the object's concrete type.
    fn get_metadata(&self) -> &[MetadataEntry];
}

/// Whether entry `i` of `table` is the first one for the interface `typeid`.
pub open spec fn first_entry_at(
    table: Seq<MetadataEntry>,
    typeid: InterfaceId,
    i: int,
) -> bool {
    &&& 0 <= i < table.len()
    &&& table[i].typeid == typeid
    &&& forall|j: int| 0 <= j < i ==> (#[trigger] table[j]).typeid != typeid
}

/// Whether `table` has an entry for the interface `typeid`.
pub open spec fn implements(table: Seq<MetadataEntry>, typeid: InterfaceId) -> bool {
    exists|i: int| 0 <= i < table.len() && (#[trigger] table[i]).typeid == typeid
}

/// The dispatch table that `table` gives for the interface `typeid`: that of
/// the first entry for it, or nothing where there is no such entry.
pub open spec fn dispatch_of(table: Seq<MetadataEntry>, typeid: InterfaceId) -> Option<usize> {
    if implements(table, typeid) {
        Some(table[choose|i: int| first_entry_at(table, typeid, i)].vtable)
    } else {
        None
    }
}

/// Whether no two entries of `table` stand for the same interface.
pub open spec fn distinct_interfaces(table: Seq<MetadataEntry>) -> bool {
    forall|i: int, j: int|
        0 <= i < j < table.len() ==> (#[trigger] table[i]).typeid != (#[trigger] table[j]).typeid
}

/// Whether `table` is the capability table of a declared type: it has the
/// entry for the base capability and names no interface twice.
pub open spec fn well_formed(table: Seq<MetadataEntry>) -> bool {
    &&& implements(table, base_interface())
    &&& distinct_interfaces(table)
}

/// An interface that a table implements has one first entry, and the table's
/// dispatch table for the interface is the one in that entry.
pub proof fn lemma_dispatch_at_first(table: Seq<MetadataEntry>, typeid: InterfaceId, i: int)
    requires
        first_entry_at(table, typeid, i),
    ensures
        implements(table, typeid),
        dispatch_of(table, typeid) == Some(table[i].vtable),
{
    let k = choose|k: int| first_entry_at(table, typeid, k);
    assert(first_entry_at(table, typeid, k));
    if k < i {
        assert(table[k].typeid != typeid);
    }
    if i < k {
        assert(table[i].typeid != typeid);
    }
}

/// No two entries are the first for one interface.
pub proof fn lemma_first_entry_unique(
    table: Seq<MetadataEntry>,
    typeid: InterfaceId,
    i: int,
    j: int,
)
    requires
        first_entry_at(table, typeid, i),
        first_entry_at(table, typeid, j),
    ensures
        i == j,
{
    if i < j {
        assert(table[i].typeid != typeid);
    }
    if j < i {
        assert(table[j].typeid != typeid);
    }
}

/// An interface that a table implements has a first entry.
pub proof fn lemma_first_entry_exists(table: Seq<MetadataEntry>, typeid: InterfaceId) -> (i: int)
    requires
        implements(table, typeid),
    ensures
        first_entry_at(table, typeid, i),
        dispatch_of(table, typeid) == Some(table[i].vtable),
{
    let w = choose|w: int| 0 <= w < table.len() && (#[trigger] table[w]).typeid == typeid;
    let i = first_before(table, typeid, w);
    lemma_dispatch_at_first(table, typeid, i);
    i
}

/// Walks down from a matching entry `w` to the first matching entry.
proof fn first_before(table: Seq<MetadataEntry>, typeid: InterfaceId, w: int) -> (i: int)
    requires
        0 <= w < table.len(),
        table[w].typeid == typeid,
    ensures
        first_entry_at(table, typeid, i),
        i <= w,
    decreases w,
{
    if exists|j: int| 0 <= j < w && (#[trigger] table[j]).typeid == typeid {
        let j = choose|j: int| 0 <= j < w && (#[trigger] table[j]).typeid == typeid;
        first_before(table, typeid, j)
    } else {
        w
    }
}

/// Adding an entry for an interface that a table does not have yet makes the
/// table give that entry's dispatch table for the interface, and changes
/// what it gives for no other interface.
pub proof fn lemma_dispatch_after_push(
    table: Seq<MetadataEntry>,
    entry: MetadataEntry,
    typeid: InterfaceId,
)
    requires
        !implements(table, entry.typeid),
    ensures
        dispatch_of(table.push(entry), typeid) == if typeid == entry.typeid {
            Some(entry.vtable)
        } else {
            dispatch_of(table, typeid)
        },
{
    let longer = table.push(entry);
    if typeid == entry.typeid {
        assert forall|j: int| 0 <= j < table.len() implies
            (#[trigger] longer[j]).typeid != typeid by {
            assert(table[j].typeid != typeid);
        }
        lemma_dispatch_at_first(longer, typeid, table.len() as int);
    } else if implements(table, typeid) {
        let i = lemma_first_entry_exists(table, typeid);
        assert forall|j: int| 0 <= j < i implies
            (#[trigger] longer[j]).typeid != typeid by {
            assert(table[j].typeid != typeid);
        }
        lemma_dispatch_at_first(longer, typeid, i);
    } else if implements(longer, typeid) {
        let i = lemma_first_entry_exists(longer, typeid);
        assert(table[i].typeid == typeid);
    }
}

/// In a table that names no interface twice, the dispatch table for an
/// interface is that of the one entry for it.
pub proof fn lemma_dispatch_of_entry(table: Seq<MetadataEntry>, i: int)
    requires
        distinct_interfaces(table),
        0 <= i < table.len(),
    ensures
        dispatch_of(table, table[i].typeid) == Some(table[i].vtable),
{
    let k = lemma_first_entry_exists(table, table[i].typeid);
    if k < i {
        assert(table[k].typeid != table[i].typeid);
    }
}

/// A lookup does not depend on the order of the entries: two tables that
/// hold the same entries and name no interface twice give the same dispatch
/// table for every interface.
pub proof fn lemma_lookup_ignores_order(
    one: Seq<MetadataEntry>,
    other: Seq<MetadataEntry>,
    typeid: InterfaceId,
)
    requires
        distinct_interfaces(one),
        distinct_interfaces(other),
        forall|entry: MetadataEntry| one.contains(entry) <==> other.contains(entry),
    ensures
        dispatch_of(one, typeid) == dispatch_of(other, typeid),
{
    if implements(one, typeid) {
        let i = lemma_first_entry_exists(one, typeid);
        assert(one.contains(one[i]));
        assert(other.contains(one[i]));
        let j = choose|j: int| 0 <= j < other.len() && other[j] == one[i];
        lemma_dispatch_of_entry(other, j);
    } else if implements(other, typeid) {
        let j = lemma_first_entry_exists(other, typeid);
        assert(other.contains(other[j]));
        assert(one.contains(other[j]));
        let i = choose|i: int| 0 <= i < one.len() && one[i] == other[j];
        assert(one[i].typeid == typeid);
    }
}

/// The position of the first entry of `table` for the interface `typeid`.
/// Nothing is returned exactly when the table has no entry for the
/// interface.
pub fn find_entry(table: &[MetadataEntry], typeid: InterfaceId) -> (found: Option<usize>)
    ensures
        match found {
            Some(i) => first_entry_at(table@, typeid, i as int),
            None => !implements(table@, typeid),
        },
{
    let mut i: usize = 0;
    while i < table.len()
        invariant
            i <= table@.len(),
            forall|j: int| 0 <= j < i ==> (#[trigger] table@[j]).typeid != typeid,
        decreases table@.len() - i,
    {
        if table[i].typeid == typeid {
            return Some(i);
        }
        i += 1;
    }
    None
}

/// The dispatch table that `table` gives for the interface `typeid`: that of
/// the first entry for it. Nothing is returned exactly when the table has no
/// entry for the interface.
pub fn find_vtable(table: &[MetadataEntry], typeid: InterfaceId) -> (found: Option<usize>)
    ensures
        found == dispatch_of(table@, typeid),
{
    match find_entry(table, typeid) {
        Some(i) => {
            proof {
                lemma_dispatch_at_first(table@, typeid, i as int);
            }
            Some(table[i].vtable)
        },
        None => None,
    }
}

} // verus!
