//! Cross-interface dynamic casting.
//!
//! An object is reached through two-word references: the address of its
//! storage and a dispatch table that says how one interface is served by the
//! object's concrete type. Every concrete type owns one capability table that
//! lists, per interface it implements, the matching dispatch table. A cast
//! looks the target interface up in that table and, when it is there, pairs
//! the unchanged address with the dispatch table found.
//!
//! The crate states what a cast returns over plain sequences of table entries
//! and proves the properties that callers rely on: a cast keeps the address,
//! depends on the table and the target alone, and can be undone.
//!
//! - [`interface`]: interface identifiers and the registry that issues them.
//! - [`metadata`]: capability entries and how a table of them is searched.
//! - [`table`]: the capability table of a type and the declarations that
//!   build it.
//! - [`cast`]: references and the casts, for shared, exclusive and owning
//!   references.
//! - [`laws`]: what holds of every cast.
//! - [`frontend`]: the rules of the declarative front end.

pub mod cast;
pub mod frontend;
pub mod interface;
pub mod laws;
pub mod metadata;
pub mod table;

pub use cast::{
    cast_result, has_reference_shape, owned_cast_result, try_cast, try_cast_boxed, try_cast_mut,
    FatPointer,
};
pub use frontend::{
    xdc_impl, xdc_struct, ImplError, ImplExpansion, ImplHeader, PathSegment, SelfType,
    StructExpansion, TraitRef,
};
pub use interface::{base_interface, type_id, InterfaceId, InterfaceRegistry};
pub use metadata::{find_entry, find_vtable, MetadataEntry, ObjBase};
pub use table::{CapabilityTable, DeclarationError};
