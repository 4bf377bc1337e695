//! What holds of every cast.
//!
//! The statements here are about [`cast_result`] and [`owned_cast_result`],
//! the functions that the contracts of the casts are written in. Each of them
//! therefore holds of every cast that the library performs, whether the
//! object is borrowed, borrowed exclusively or owned.

use crate::cast::{cast_result, owned_cast_result, FatPointer};
use crate::interface::{base_interface, InterfaceId};
use crate::metadata::{
    dispatch_of, implements, lemma_first_entry_exists, well_formed, MetadataEntry,
};
use vstd::prelude::*;

verus! {

/// Whether `reference` is typed as the interface `typeid` for an object whose
/// capability table is `table`: its dispatch table is the one that the table
/// gives for `typeid`.
pub open spec fn typed_as(
    table: Seq<MetadataEntry>,
    reference: FatPointer,
    typeid: InterfaceId,
) -> bool {
    dispatch_of(table, typeid) == Some(reference.vtable)
}

/// A cast succeeds exactly when the table has an entry for the target, and
/// the reference it gives is typed as the target.
pub proof fn lemma_cast_succeeds_iff_implemented(
    table: Seq<MetadataEntry>,
    from: FatPointer,
    typeid: InterfaceId,
)
    ensures
        cast_result(table, from, typeid) is Some <==> implements(table, typeid),
        cast_result(table, from, typeid) matches Some(to) ==> typed_as(table, to, typeid),
{
    if implements(table, typeid) {
        lemma_first_entry_exists(table, typeid);
    }
}

/// Round trip: take the base view of an object, cast it to any interface
/// that the object's type implements, and cast the result to the base
/// capability. What comes back is the base view that went in: the same
/// address and the same base dispatch table, hence the same capability
/// table.
pub proof fn lemma_round_trip(
    table: Seq<MetadataEntry>,
    base_view: FatPointer,
    typeid: InterfaceId,
)
    requires
        typed_as(table, base_view, base_interface()),
        implements(table, typeid),
    ensures
        cast_result(table, base_view, typeid) matches Some(there) && cast_result(
            table,
            there,
            base_interface(),
        ) == Some(base_view),
{
    lemma_first_entry_exists(table, typeid);
}

/// A cast can be undone: casting a reference typed as `source` to `target`
/// gives a reference typed as `target`, and casting that one back to
/// `source` gives the reference that was cast.
pub proof fn lemma_cast_reversible(
    table: Seq<MetadataEntry>,
    from: FatPointer,
    source: InterfaceId,
    target: InterfaceId,
)
    requires
        typed_as(table, from, source),
        implements(table, target),
    ensures
        (cast_result(table, from, target) matches Some(to) && {
            &&& typed_as(table, to, target)
            &&& cast_result(table, to, source) == Some(from)
        }),
{
    lemma_first_entry_exists(table, target);
}

/// Symmetry of absence: a cast to an interface that the object's type does
/// not implement gives nothing, through whichever reference the object is
/// reached; two references to objects of one type always agree on whether a
/// target can be reached.
pub proof fn lemma_absence_is_symmetric(
    table: Seq<MetadataEntry>,
    one: FatPointer,
    other: FatPointer,
    typeid: InterfaceId,
)
    ensures
        !implements(table, typeid) ==> cast_result(table, one, typeid) is None,
        !implements(table, typeid) ==> cast_result(table, other, typeid) is None,
        cast_result(table, one, typeid) is None <==> cast_result(table, other, typeid) is None,
{
    if implements(table, typeid) {
        lemma_first_entry_exists(table, typeid);
    }
}

/// Identity preservation: the reference that a cast gives has the address of
/// the reference that was cast.
pub proof fn lemma_cast_keeps_address(
    table: Seq<MetadataEntry>,
    from: FatPointer,
    typeid: InterfaceId,
)
    ensures
        cast_result(table, from, typeid) matches Some(to) ==> to.data == from.data,
{
}

/// Independence from any hierarchy of interfaces: when a type implements
/// `source` and `target`, a reference typed as `source` is cast to `target`
/// in one step. The step gives the view typed as `target` of the same
/// object, the very one that the detour through a third interface `via` of
/// the type would give.
pub proof fn lemma_cast_is_direct(
    table: Seq<MetadataEntry>,
    from: FatPointer,
    source: InterfaceId,
    target: InterfaceId,
    via: InterfaceId,
)
    requires
        typed_as(table, from, source),
        implements(table, target),
        implements(table, via),
    ensures
        (cast_result(table, from, target) matches Some(to) && {
            &&& to.data == from.data
            &&& typed_as(table, to, target)
            &&& cast_result(table, from, via) matches Some(between) && cast_result(
                table,
                between,
                target,
            ) == Some(to)
        }),
{
    lemma_first_entry_exists(table, target);
    lemma_first_entry_exists(table, via);
}

/// An owning reference is never lost: a cast of it either gives the
/// reference typed as the target, to the same object, or hands back the very
/// reference that went in. The reference handed back can be cast again, with
/// the same outcome, as often as one likes, and still owns its object after
/// the last attempt.
pub proof fn lemma_owned_cast_hands_back(
    table: Seq<MetadataEntry>,
    from: FatPointer,
    typeid: InterfaceId,
)
    ensures
        match owned_cast_result(table, from, typeid) {
            Ok(to) => implements(table, typeid) && to.data == from.data,
            Err(back) => {
                &&& !implements(table, typeid)
                &&& back == from
                &&& owned_cast_result(table, back, typeid) == Err::<FatPointer, FatPointer>(back)
            },
        },
{
    if implements(table, typeid) {
        lemma_first_entry_exists(table, typeid);
    }
}

/// Every view of an object of a declared type can be cast to the base
/// capability.
pub proof fn lemma_base_is_reachable(table: Seq<MetadataEntry>, from: FatPointer)
    requires
        well_formed(table),
    ensures
        cast_result(table, from, base_interface()) is Some,
{
    lemma_first_entry_exists(table, base_interface());
}

} // verus!
