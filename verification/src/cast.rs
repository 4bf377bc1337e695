//! Object references and the cast between interface views.

use crate::interface::InterfaceId;
use crate::metadata::{dispatch_of, find_vtable, MetadataEntry, ObjBase};
use vstd::layout::size_of;
use vstd::prelude::*;

verus! {

/// A reference to an object, seen through one interface: the address of the
/// object's storage and the dispatch table of the object's concrete type for
/// that interface. Every such reference has this two-word shape, whichever
/// interface it is typed as and however the object is held.
///
/// The value is neither `Clone` nor `Copy`: a reference that is passed by
/// value is handed over, which is how an owning reference travels.
#[derive(Debug, PartialEq, Eq, Structural)]
pub struct FatPointer {
    /// The address of the object's storage.
    pub data: usize,
    /// The dispatch table for the interface that the reference is typed as.
    pub vtable: usize,
}

/// Whether a value of type `R` takes exactly the room of a [`FatPointer`].
///
/// A cast hands out its result as two words. Where the references of an
/// environment are to be rebuilt from them, their type has to have this
/// shape; a caller that finds it has not must not go on.
pub fn has_reference_shape<R>() -> (ok: bool)
    ensures
        ok == (size_of::<R>() == size_of::<FatPointer>()),
{
    core::mem::size_of::<R>() == core::mem::size_of::<FatPointer>()
}

/// What casting the reference `from` to the interface `typeid` gives for an
/// object whose capability table is `table`: the same address with the
/// table's dispatch table for `typeid`, or nothing where the table has no
/// entry for `typeid`.
pub open spec fn cast_result(
    table: Seq<MetadataEntry>,
    from: FatPointer,
    typeid: InterfaceId,
) -> Option<FatPointer> {
    match dispatch_of(table, typeid) {
        Some(vtable) => Some(FatPointer { data: from.data, vtable }),
        None => None,
    }
}

/// What casting the owning reference `from` to the interface `typeid` gives
/// for an object whose capability table is `table`: the reference typed as
/// `typeid`, or else `from` itself, handed back.
pub open spec fn owned_cast_result(
    table: Seq<MetadataEntry>,
    from: FatPointer,
    typeid: InterfaceId,
) -> Result<FatPointer, FatPointer> {
    match cast_result(table, from, typeid) {
        Some(to) => Ok(to),
        None => Err(from),
    }
}

impl FatPointer {
    /// Casts a shared reference to the interface `typeid`, for an object
    /// whose capability table is `table`.
    ///
    /// The cast succeeds exactly when `table` has an entry for `typeid`. The
    /// new reference has the address of `self` and the dispatch table of the
    /// first such entry. Neither `self` nor `table` is changed.
    pub fn cast_in(
        &self,
        table: &[MetadataEntry],
        typeid: InterfaceId,
    ) -> (outcome: Option<FatPointer>)
        ensures
            outcome == cast_result(table@, *self, typeid),
    {
        match find_vtable(table, typeid) {
            Some(vtable) => Some(FatPointer { data: self.data, vtable }),
            None => None,
        }
    }

    /// Casts an exclusive reference to the interface `typeid`, for an object
    /// whose capability table is `table`.
    ///
    /// The caller vouches for exclusive access to the object by handing in
    /// its reference exclusively. The cast itself is that of a shared
    /// reference: it succeeds exactly when `table` has an entry for `typeid`,
    /// gives a new reference with the address of `self` and the dispatch
    /// table of the first such entry, and leaves `self` as it was.
    pub fn cast_mut_in(
        &mut self,
        table: &[MetadataEntry],
        typeid: InterfaceId,
    ) -> (outcome: Option<FatPointer>)
        ensures
            outcome == cast_result(table@, *old(self), typeid),
            *final(self) == *old(self),
    {
        match find_vtable(table, typeid) {
            Some(vtable) => Some(FatPointer { data: self.data, vtable }),
            None => None,
        }
    }

    /// Casts an owning reference to the interface `typeid`, for an object
    /// whose capability table is `table`.
    ///
    /// The reference is consumed. When `table` has an entry for `typeid`, the
    /// reference that comes back owns the same object and is typed as
    /// `typeid`. When it has none, the reference that went in comes back
    /// unchanged, so that the object is neither lost nor released.
    pub fn cast_boxed_in(
        self,
        table: &[MetadataEntry],
        typeid: InterfaceId,
    ) -> (outcome: Result<FatPointer, FatPointer>)
        ensures
            outcome == owned_cast_result(table@, self, typeid),
    {
        match find_vtable(table, typeid) {
            Some(vtable) => Ok(FatPointer { data: self.data, vtable }),
            None => Err(self),
        }
    }
}

/// Casts the shared reference `from` to the interface `typeid`.
///
/// `object` is the referent seen through its base capability. The result is
/// that of [`FatPointer::cast_in`] on the capability table that
/// `object.get_metadata()` gives; whatever that table holds, a reference
/// that comes back has the address of `from`.
pub fn try_cast<B: ObjBase + ?Sized>(
    object: &B,
    from: &FatPointer,
    typeid: InterfaceId,
) -> (outcome: Option<FatPointer>)
    ensures
        (exists|table: &[MetadataEntry]|
            {
                &&& call_ensures(B::get_metadata, (object,), table)
                &&& outcome == #[trigger] cast_result(table@, *from, typeid)
            }),
        outcome matches Some(to) ==> to.data == from.data,
{
    let table = object.get_metadata();
    from.cast_in(table, typeid)
}

/// Casts the exclusive reference `from` to the interface `typeid`.
///
/// `object` is the referent seen through its base capability. The result is
/// that of [`FatPointer::cast_mut_in`] on the capability table that
/// `object.get_metadata()` gives; whatever that table holds, a reference
/// that comes back has the address of `from`, and `from` is left as it was.
pub fn try_cast_mut<B: ObjBase + ?Sized>(
    object: &B,
    from: &mut FatPointer,
    typeid: InterfaceId,
) -> (outcome: Option<FatPointer>)
    ensures
        (exists|table: &[MetadataEntry]|
            {
                &&& call_ensures(B::get_metadata, (object,), table)
                &&& outcome == #[trigger] cast_result(table@, *old(from), typeid)
            }),
        outcome matches Some(to) ==> to.data == old(from).data,
        *final(from) == *old(from),
{
    let table = object.get_metadata();
    from.cast_mut_in(table, typeid)
}

/// Casts the owning reference `from` to the interface `typeid`.
///
/// `object` is the referent seen through its base capability. The result is
/// that of [`FatPointer::cast_boxed_in`] on the capability table that
/// `object.get_metadata()` gives; whatever that table holds, the reference
/// that comes back has the address of `from`, and a failed cast hands `from`
/// back unchanged.
pub fn try_cast_boxed<B: ObjBase + ?Sized>(
    object: &B,
    from: FatPointer,
    typeid: InterfaceId,
) -> (outcome: Result<FatPointer, FatPointer>)
    ensures
        (exists|table: &[MetadataEntry]|
            {
                &&& call_ensures(B::get_metadata, (object,), table)
                &&& outcome == #[trigger] owned_cast_result(table@, from, typeid)
            }),
        match outcome {
            Ok(to) => to.data == from.data,
            Err(back) => back == from,
        },
{
    let table = object.get_metadata();
    from.cast_boxed_in(table, typeid)
}

} // verus!
