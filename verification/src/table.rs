//! The capability table of a concrete type and the declarations that build
//! it.

use crate::interface::{base_interface, InterfaceId, InterfaceRegistry};
use crate::metadata::{
    dispatch_of, distinct_interfaces, find_entry, find_vtable, first_entry_at, implements,
    lemma_dispatch_after_push, lemma_first_entry_unique, lemma_lookup_ignores_order, well_formed,
    MetadataEntry, ObjBase,
};
use vstd::prelude::*;

verus! {

/// Why a declaration is refused.
#[derive(Clone, Copy, Debug, PartialEq, Eq, Structural)]
pub enum DeclarationError {
    /// The interface was never declared.
    UnknownInterface,
    /// The type already has an entry for the interface.
    DuplicateImplementation,
    /// The type has no entry for the base capability.
    MissingBase,
}

/// The table that holds the base capability alone, served by `base_vtable`.
pub open spec fn base_table(base_vtable: usize) -> Seq<MetadataEntry> {
    seq![MetadataEntry { typeid: base_interface(), vtable: base_vtable }]
}

/// Whether entry `i` of `entries` cannot be declared once the entries before
/// it are: its interface was not issued by `registry`, or an earlier entry
/// stands for the same interface.
pub open spec fn fault_at(
    registry: &InterfaceRegistry,
    entries: Seq<MetadataEntry>,
    i: int,
) -> bool {
    &&& 0 <= i < entries.len()
    &&& (!registry.issued(entries[i].typeid) || implements(entries.take(i), entries[i].typeid))
}

/// Whether entry `i` is the first of `entries` that cannot be declared.
pub open spec fn first_fault_at(
    registry: &InterfaceRegistry,
    entries: Seq<MetadataEntry>,
    i: int,
) -> bool {
    &&& fault_at(registry, entries, i)
    &&& forall|j: int| 0 <= j < i ==> !fault_at(registry, entries, j)
}

/// Whether every entry of `entries` can be declared.
pub open spec fn faultless(registry: &InterfaceRegistry, entries: Seq<MetadataEntry>) -> bool {
    forall|i: int| 0 <= i < entries.len() ==> !fault_at(registry, entries, i)
}

/// Why an entry that cannot be declared is refused.
pub open spec fn fault_of(registry: &InterfaceRegistry, entry: MetadataEntry) -> DeclarationError {
    if !registry.issued(entry.typeid) {
        DeclarationError::UnknownInterface
    } else {
        DeclarationError::DuplicateImplementation
    }
}

/// Why declaring a type from `entries` is refused, if it is: the entries
/// have none for the base capability, or else one of them cannot be
/// declared, and the first such entry gives the reason.
pub open spec fn collection_error(
    registry: &InterfaceRegistry,
    entries: Seq<MetadataEntry>,
) -> Option<DeclarationError> {
    if !implements(entries, base_interface()) {
        Some(DeclarationError::MissingBase)
    } else if exists|i: int| fault_at(registry, entries, i) {
        Some(fault_of(registry, entries[choose|i: int| first_fault_at(registry, entries, i)]))
    } else {
        None
    }
}

/// The table that declaring a type from `entries` gives: the first entry for
/// the base capability, then the other entries in their order.
pub open spec fn collected(entries: Seq<MetadataEntry>) -> Seq<MetadataEntry> {
    let base = choose|base: int| first_entry_at(entries, base_interface(), base);
    seq![entries[base]] + entries.remove(base)
}

/// The table that holds the entry at `base` and then the entries before
/// position `upto`, the one at `base` left out.
spec fn declared(entries: Seq<MetadataEntry>, base: int, upto: int) -> Seq<MetadataEntry> {
    if upto <= base {
        seq![entries[base]] + entries.take(upto)
    } else {
        seq![entries[base]] + entries.take(base) + entries.subrange(base + 1, upto)
    }
}

/// Going one position further adds the entry at that position, unless it is
/// the one at `base`, which is there from the start.
proof fn lemma_declared_grows(entries: Seq<MetadataEntry>, base: int, upto: int)
    requires
        0 <= base < entries.len(),
        0 <= upto < entries.len(),
    ensures
        declared(entries, base, upto + 1) == if upto == base {
            declared(entries, base, upto)
        } else {
            declared(entries, base, upto).push(entries[upto])
        },
        declared(entries, base, 0) == seq![entries[base]],
{
    assert(declared(entries, base, 0) =~= seq![entries[base]]);
    if upto == base {
        assert(declared(entries, base, upto + 1) =~= declared(entries, base, upto));
    } else {
        assert(declared(entries, base, upto + 1) =~= declared(entries, base, upto).push(
            entries[upto],
        ));
    }
}

/// An entry other than the first base entry stands for an interface that is
/// declared by the time it is reached exactly when an earlier entry stands
/// for that interface.
proof fn lemma_declared_interfaces(entries: Seq<MetadataEntry>, base: int, upto: int)
    requires
        first_entry_at(entries, base_interface(), base),
        0 <= upto < entries.len(),
        upto != base,
    ensures
        implements(declared(entries, base, upto), entries[upto].typeid) <==> implements(
            entries.take(upto),
            entries[upto].typeid,
        ),
{
    let held = declared(entries, base, upto);
    let earlier = entries.take(upto);
    let typeid = entries[upto].typeid;
    if implements(held, typeid) {
        let m = choose|m: int| 0 <= m < held.len() && (#[trigger] held[m]).typeid == typeid;
        if m == 0 {
            assert(base < upto);
            assert(earlier[base].typeid == typeid);
        } else if m <= base {
            assert(earlier[m - 1] == held[m]);
        } else {
            assert(earlier[m] == held[m]);
        }
    }
    if implements(earlier, typeid) {
        let k = choose|k: int| 0 <= k < earlier.len() && (#[trigger] earlier[k]).typeid == typeid;
        if k == base {
            assert(held[0] == earlier[k]);
        } else if k < base {
            assert(held[k + 1] == earlier[k]);
        } else {
            assert(held[k] == earlier[k]);
        }
    }
}

/// Once every position is passed, the table is the one that the entries are
/// collected into, and it holds the very entries that were collected.
proof fn lemma_declared_all(entries: Seq<MetadataEntry>, base: int)
    requires
        first_entry_at(entries, base_interface(), base),
    ensures
        declared(entries, base, entries.len() as int) == collected(entries),
        forall|entry: MetadataEntry|
            collected(entries).contains(entry) <==> entries.contains(entry),
{
    let held = declared(entries, base, entries.len() as int);
    let first = choose|k: int| first_entry_at(entries, base_interface(), k);
    lemma_first_entry_unique(entries, base_interface(), first, base);
    assert(held =~= collected(entries));
    assert forall|entry: MetadataEntry| held.contains(entry) <==> entries.contains(entry) by {
        if held.contains(entry) {
            let m = choose|m: int| 0 <= m < held.len() && held[m] == entry;
            if m == 0 {
                assert(entries[base] == entry);
            } else if m <= base {
                assert(entries[m - 1] == entry);
            } else {
                assert(entries[m] == entry);
            }
        }
        if entries.contains(entry) {
            let k = choose|k: int| 0 <= k < entries.len() && entries[k] == entry;
            if k == base {
                assert(held[0] == entry);
            } else if k < base {
                assert(held[k + 1] == entry);
            } else {
                assert(held[k] == entry);
            }
        }
    }
}

/// No two entries are the first that cannot be declared.
pub proof fn lemma_first_fault_unique(
    registry: &InterfaceRegistry,
    entries: Seq<MetadataEntry>,
    i: int,
    j: int,
)
    requires
        first_fault_at(registry, entries, i),
        first_fault_at(registry, entries, j),
    ensures
        i == j,
{
    if i < j {
        assert(!fault_at(registry, entries, i));
    }
    if j < i {
        assert(!fault_at(registry, entries, j));
    }
}

/// Entries that can all be declared name no interface twice.
pub proof fn lemma_faultless_is_distinct(registry: &InterfaceRegistry, entries: Seq<MetadataEntry>)
    requires
        faultless(registry, entries),
    ensures
        distinct_interfaces(entries),
        forall|i: int| 0 <= i < entries.len() ==> registry.issued((#[trigger] entries[i]).typeid),
{
    assert forall|i: int, j: int| 0 <= i < j < entries.len() implies
        (#[trigger] entries[i]).typeid != (#[trigger] entries[j]).typeid by {
        assert(!fault_at(registry, entries, j));
        assert(entries.take(j)[i] == entries[i]);
    }
    assert forall|i: int| 0 <= i < entries.len() implies
        registry.issued((#[trigger] entries[i]).typeid) by {
        assert(!fault_at(registry, entries, i));
    }
}

/// The capability table of one concrete type, shared by all its instances.
///
/// A table starts with the entry for the base capability and grows by one
/// entry per declared implementation. Entries are never changed or removed,
/// and no interface appears twice, so the order of the entries does not
/// matter to a lookup.
pub struct CapabilityTable {
    entries: Vec<MetadataEntry>,
}

impl View for CapabilityTable {
    type V = Seq<MetadataEntry>;

    /// The entries, oldest first.
    closed spec fn view(&self) -> Seq<MetadataEntry> {
        self.entries@
    }
}

impl CapabilityTable {
    /// The table has the base entry and names no interface twice.
    #[verifier::type_invariant]
    pub open spec fn wf(&self) -> bool {
        well_formed(self@)
    }

    /// Why declaring that this table's type implements `typeid` is refused,
    /// if it is: the interface must have been issued by `registry`, and the
    /// table must not yet have an entry for it.
    pub open spec fn refusal(
        &self,
        registry: &InterfaceRegistry,
        typeid: InterfaceId,
    ) -> Option<DeclarationError> {
        if !registry.issued(typeid) {
            Some(DeclarationError::UnknownInterface)
        } else if dispatch_of(self@, typeid) is Some {
            Some(DeclarationError::DuplicateImplementation)
        } else {
            None
        }
    }

    /// Declares a concrete type: its table holds the entry for the base
    /// capability, served by `base_vtable`, and nothing else.
    pub fn register_type(base_vtable: usize) -> (table: Self)
        ensures
            table@ == base_table(base_vtable),
            table.wf(),
            (forall|typeid: InterfaceId| #[trigger]
                dispatch_of(table@, typeid) == if typeid == base_interface() {
                    Some(base_vtable)
                } else {
                    None
                }),
    {
        let mut entries: Vec<MetadataEntry> = Vec::new();
        let base = MetadataEntry { typeid: InterfaceId::base(), vtable: base_vtable };
        entries.push(base);
        proof {
            assert(entries@ =~= seq![base]);
            assert(entries@[0].typeid == base_interface());
            assert(entries@ =~= Seq::<MetadataEntry>::empty().push(base));
            assert forall|typeid: InterfaceId| #[trigger]
                dispatch_of(entries@, typeid) == if typeid == base_interface() {
                    Some(base_vtable)
                } else {
                    None::<usize>
                } by {
                lemma_dispatch_after_push(Seq::<MetadataEntry>::empty(), base, typeid);
            }
        }
        CapabilityTable { entries }
    }

    /// Declares that this table's type implements the interface `typeid`
    /// through the dispatch table `vtable`.
    ///
    /// The declaration is refused, and the table left as it was, when
    /// `typeid` was not issued by `registry` or when the table already has an
    /// entry for it. Otherwise the entry is added at the end.
    pub fn register_implementation(
        &mut self,
        registry: &InterfaceRegistry,
        typeid: InterfaceId,
        vtable: usize,
    ) -> (outcome: Result<(), DeclarationError>)
        ensures
            final(self).wf(),
            match outcome {
                Ok(()) => {
                    &&& old(self).refusal(registry, typeid) is None
                    &&& final(self)@ == old(self)@.push((MetadataEntry { typeid, vtable }))
                    &&& (forall|other: InterfaceId| #[trigger]
                        dispatch_of(final(self)@, other) == if other == typeid {
                            Some(vtable)
                        } else {
                            dispatch_of(old(self)@, other)
                        })
                },
                Err(error) => {
                    &&& old(self).refusal(registry, typeid) == Some(error)
                    &&& final(self)@ == old(self)@
                },
            },
    {
        proof {
            use_type_invariant(&*self);
        }
        if !registry.is_registered(typeid) {
            return Err(DeclarationError::UnknownInterface);
        }
        if find_vtable(self.entries.as_slice(), typeid).is_some() {
            return Err(DeclarationError::DuplicateImplementation);
        }
        let ghost before = self@;
        // The entries are taken out and put back as a whole: the invariant
        // holds of every value of the type, so a table cannot be left
        // without them in between.
        let mut taken = CapabilityTable::register_type(0);
        core::mem::swap(self, &mut taken);
        let mut entries = taken.entries;
        entries.push(MetadataEntry { typeid, vtable });
        proof {
            let entry = MetadataEntry { typeid, vtable };
            assert(entries@ =~= before.push(entry));
            assert forall|other: InterfaceId| #[trigger]
                dispatch_of(entries@, other) == if other == typeid {
                    Some(vtable)
                } else {
                    dispatch_of(before, other)
                } by {
                lemma_dispatch_after_push(before, entry, other);
            }
            let w = choose|w: int|
                0 <= w < before.len() && (#[trigger] before[w]).typeid == base_interface();
            assert(entries@[w].typeid == base_interface());
            assert forall|i: int, j: int| 0 <= i < j < entries@.len() implies
                (#[trigger] entries@[i]).typeid != (#[trigger] entries@[j]).typeid by {
                if j < before.len() {
                    assert(before[i].typeid != before[j].typeid);
                } else {
                    assert(before[i].typeid != typeid);
                }
            }
        }
        *self = CapabilityTable { entries };
        Ok(())
    }

    /// Declares a concrete type from the entries that were written down for
    /// it, in whatever order they were collected.
    ///
    /// The type needs an entry for the base capability; the first such entry
    /// opens the table. The other entries are then declared in their order,
    /// as by [`CapabilityTable::register_implementation`], and the first that
    /// is refused ends the declaration with its error: one whose interface
    /// was not issued by `registry`, or one that stands for an interface that
    /// an earlier entry stands for.
    pub fn from_entries(
        registry: &InterfaceRegistry,
        entries: &[MetadataEntry],
    ) -> (outcome: Result<Self, DeclarationError>)
        ensures
            match outcome {
                Ok(table) => {
                    &&& collection_error(registry, entries@) is None
                    &&& table@ == collected(entries@)
                    &&& table.wf()
                    &&& (forall|typeid: InterfaceId| #[trigger]
                        dispatch_of(table@, typeid) == dispatch_of(entries@, typeid))
                },
                Err(error) => collection_error(registry, entries@) == Some(error),
            },
    {
        let base = match find_entry(entries, InterfaceId::base()) {
            Some(base) => base,
            None => {
                return Err(DeclarationError::MissingBase);
            },
        };
        let mut table = CapabilityTable::register_type(entries[base].vtable);
        let mut i: usize = 0;
        while i < entries.len()
            invariant
                i <= entries@.len(),
                first_entry_at(entries@, base_interface(), base as int),
                forall|j: int| 0 <= j < i ==> !fault_at(registry, entries@, j),
                table@ == declared(entries@, base as int, i as int),
                table.wf(),
            decreases entries@.len() - i,
        {
            proof {
                lemma_declared_grows(entries@, base as int, i as int);
            }
            if i != base {
                proof {
                    lemma_declared_interfaces(entries@, base as int, i as int);
                }
                match table.register_implementation(registry, entries[i].typeid, entries[i].vtable) {
                    Ok(()) => {},
                    Err(error) => {
                        proof {
                            assert(first_fault_at(registry, entries@, i as int));
                            let first = choose|k: int| first_fault_at(registry, entries@, k);
                            lemma_first_fault_unique(registry, entries@, first, i as int);
                        }
                        return Err(error);
                    },
                }
            } else {
                proof {
                    let earlier = entries@.take(i as int);
                    assert forall|k: int| 0 <= k < i implies
                        (#[trigger] earlier[k]).typeid != base_interface() by {
                        assert(entries@[k].typeid != base_interface());
                    }
                }
            }
            i += 1;
        }
        proof {
            lemma_declared_all(entries@, base as int);
            lemma_faultless_is_distinct(registry, entries@);
            assert forall|typeid: InterfaceId| #[trigger]
                dispatch_of(table@, typeid) == dispatch_of(entries@, typeid) by {
                lemma_lookup_ignores_order(table@, entries@, typeid);
            }
        }
        Ok(table)
    }

    /// The number of entries, the base entry counted.
    pub fn len(&self) -> (n: usize)
        ensures
            n == self@.len(),
    {
        self.entries.len()
    }

    /// The dispatch table that this table gives for the interface `typeid`.
    pub fn dispatch_table(&self, typeid: InterfaceId) -> (found: Option<usize>)
        ensures
            found == dispatch_of(self@, typeid),
    {
        find_vtable(self.entries.as_slice(), typeid)
    }
}

impl ObjBase for CapabilityTable {
    /// The entries of this table.
    fn get_metadata(&self) -> (table: &[MetadataEntry])
        ensures
            table@ == self@,
    {
        self.entries.as_slice()
    }
}

} // verus!
