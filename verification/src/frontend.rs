//! The declarative front end: what annotating a struct or an `impl` block
//! has to produce.
//!
//! Annotating a struct declares a castable type: the type gets a capability
//! table and, in it, the entry for the base capability. Annotating an `impl`
//! block declares that the type implements one more interface and adds one
//! entry to the table. Both items are found again by name, so the names are
//! derived from the type and the interface alone. This module holds the rules
//! for accepting an `impl` block and for deriving those names; it works on a
//! plain description of the annotated item and leaves reading and emitting
//! tokens to its caller.

use vstd::prelude::*;
use vstd::string::*;

verus! {

/// One segment of a path, such as `fmt` or `Vec<u8>`.
#[derive(Debug, PartialEq, Eq)]
pub struct PathSegment {
    /// The identifier of the segment.
    pub ident: String,
    /// Whether generic or parenthesised arguments follow the identifier.
    pub has_arguments: bool,
}

/// The trait named in an `impl` header.
#[derive(Debug, PartialEq, Eq)]
pub struct TraitRef {
    /// Whether the header reads `impl !Trait for ..`.
    pub negative: bool,
    /// The segments of the trait's path, in order.
    pub segments: Vec<PathSegment>,
}

/// The type that an `impl` block is written for.
#[derive(Debug, PartialEq, Eq)]
pub enum SelfType {
    /// A type given by a path.
    Path {
        /// Whether the path is qualified, as in `<T as Trait>::Name`.
        qualified: bool,
        /// Whether the path starts with `::`.
        leading_colon: bool,
        /// The segments of the path, in order.
        segments: Vec<PathSegment>,
    },
    /// Any other type: a reference, a tuple, a slice and so on.
    Other,
}

/// What the front end reads of an `impl` block.
#[derive(Debug, PartialEq, Eq)]
pub struct ImplHeader {
    /// The trait that is implemented, if the block names one.
    pub trait_: Option<TraitRef>,
    /// The implementing type.
    pub self_ty: SelfType,
}

/// Why an annotated `impl` block is refused.
#[derive(Clone, Copy, Debug, PartialEq, Eq, Structural)]
pub enum ImplError {
    /// The block implements no trait.
    NoTrait,
    /// The block is a negative impl.
    NegativeImpl,
    /// The implementing type is not a path.
    SelfNotPath,
    /// The implementing type is a qualified path.
    QualifiedSelf,
    /// The implementing type is a path but not a bare identifier.
    SelfNotIdent,
    /// A segment of the trait's path carries arguments.
    TraitArguments {
        /// The position of the first such segment.
        segment: usize,
    },
}

/// The names of the items that declaring a castable type emits.
#[derive(Debug, PartialEq, Eq)]
pub struct StructExpansion {
    /// The name of the type's capability table.
    pub meta_id: String,
    /// The name of the table entry for the base capability.
    pub objbase_id: String,
}

/// The names of the items that declaring an implementation refers to and
/// emits.
#[derive(Debug, PartialEq, Eq)]
pub struct ImplExpansion {
    /// The name of the implementing type's capability table.
    pub meta_id: String,
    /// The name of the new table entry.
    pub entry_id: String,
}

/// The name of the capability table of the type named `owner`.
pub open spec fn metadata_name(owner: Seq<char>) -> Seq<char> {
    "__"@ + owner + "_XDC_METADATA"@
}

/// The name of the base-capability entry of the type named `owner`.
pub open spec fn objbase_name(owner: Seq<char>) -> Seq<char> {
    metadata_name(owner) + "_OBJBASE"@
}

/// The identifiers in `segments`, each with `_` in front of it, in one run.
pub open spec fn joined_idents(segments: Seq<PathSegment>) -> Seq<char>
    decreases segments.len(),
{
    if segments.len() == 0 {
        Seq::empty()
    } else {
        joined_idents(segments.drop_last()) + "_"@ + segments.last().ident@
    }
}

/// The name of the entry that says that the type named `owner` implements the
/// trait whose path is `segments`.
pub open spec fn entry_name(owner: Seq<char>, segments: Seq<PathSegment>) -> Seq<char> {
    metadata_name(owner) + joined_idents(segments)
}

/// Whether segment `i` is the first of `segments` that carries arguments.
pub open spec fn first_with_arguments(segments: Seq<PathSegment>, i: int) -> bool {
    &&& 0 <= i < segments.len()
    &&& segments[i].has_arguments
    &&& forall|j: int| 0 <= j < i ==> !(#[trigger] segments[j]).has_arguments
}

/// Whether no segment of `segments` carries arguments.
pub open spec fn no_arguments(segments: Seq<PathSegment>) -> bool {
    forall|j: int| 0 <= j < segments.len() ==> !(#[trigger] segments[j]).has_arguments
}

impl SelfType {
    /// The identifier that this type consists of, if it is a path of one
    /// segment without a leading `::`, a qualifier or arguments.
    pub open spec fn bare_ident(self) -> Option<Seq<char>> {
        match self {
            SelfType::Path { qualified, leading_colon, segments } => {
                let bare = {
                    &&& !qualified
                    &&& !leading_colon
                    &&& segments@.len() == 1
                    &&& !segments@[0].has_arguments
                };
                if bare {
                    Some(segments@[0].ident@)
                } else {
                    None
                }
            },
            SelfType::Other => None,
        }
    }
}

impl ImplHeader {
    /// Whether the checks that come before the trait's path is walked accept
    /// the header, and if not, why. The checks run in a fixed order and the
    /// first that fails decides.
    pub open spec fn header_error(self) -> Option<ImplError> {
        match self.trait_ {
            None => Some(ImplError::NoTrait),
            Some(t) => if t.negative {
                Some(ImplError::NegativeImpl)
            } else {
                match self.self_ty {
                    SelfType::Other => Some(ImplError::SelfNotPath),
                    SelfType::Path { qualified, .. } => if qualified {
                        Some(ImplError::QualifiedSelf)
                    } else if self.self_ty.bare_ident() is None {
                        Some(ImplError::SelfNotIdent)
                    } else {
                        None
                    },
                }
            },
        }
    }

    /// Whether `error` is the reason for which this header is refused.
    pub open spec fn refused_with(self, error: ImplError) -> bool {
        match self.header_error() {
            Some(e) => error == e,
            None => {
                &&& error matches ImplError::TraitArguments { segment }
                &&& first_with_arguments(self.trait_->Some_0.segments@, segment as int)
            },
        }
    }

    /// Whether this header is accepted.
    pub open spec fn accepted(self) -> bool {
        self.header_error() is None && no_arguments(self.trait_->Some_0.segments@)
    }
}

impl ImplError {
    /// The message shown to the author of the refused block.
    pub open spec fn message_text(self) -> Seq<char> {
        match self {
            ImplError::NoTrait => "Must impl some trait"@,
            ImplError::NegativeImpl => "Cannot have a ! here"@,
            ImplError::SelfNotPath => "Must impl on a path"@,
            ImplError::QualifiedSelf => "Cannot have qualified syntax here (must be bare ident)"@,
            ImplError::SelfNotIdent => "Cannot have a path here (must be bare ident)"@,
            ImplError::TraitArguments { .. } => "Cannot have arguments here"@,
        }
    }

    /// The message shown to the author of the refused block.
    pub fn message(&self) -> (text: &'static str)
        ensures
            text@ == self.message_text(),
    {
        match self {
            ImplError::NoTrait => "Must impl some trait",
            ImplError::NegativeImpl => "Cannot have a ! here",
            ImplError::SelfNotPath => "Must impl on a path",
            ImplError::QualifiedSelf => "Cannot have qualified syntax here (must be bare ident)",
            ImplError::SelfNotIdent => "Cannot have a path here (must be bare ident)",
            ImplError::TraitArguments { .. } => "Cannot have arguments here",
        }
    }
}

/// Builds the name of the capability table of the type named `owner`.
fn metadata_ident(owner: &str) -> (name: String)
    ensures
        name@ == metadata_name(owner@),
{
    let mut name = "__".to_owned();
    name.append(owner);
    name.append("_XDC_METADATA");
    name
}

/// Declares the struct named `struct_id` castable: gives the names of its
/// capability table and of the table's entry for the base capability.
pub fn xdc_struct(struct_id: &str) -> (expansion: StructExpansion)
    ensures
        expansion.meta_id@ == metadata_name(struct_id@),
        expansion.objbase_id@ == objbase_name(struct_id@),
{
    let meta_id = metadata_ident(struct_id);
    let mut objbase_id = metadata_ident(struct_id);
    objbase_id.append("_OBJBASE");
    StructExpansion { meta_id, objbase_id }
}

/// Declares the implementation that `item` describes: checks the header and
/// gives the names of the implementing type's capability table and of the
/// entry to add to it.
///
/// The header is refused when it names no trait, when it is a negative impl,
/// when the implementing type is not a path, is a qualified path or is not a
/// bare identifier, and when a segment of the trait's path carries
/// arguments. The first of these that applies, in this order, is reported;
/// for arguments, the first segment that has them.
pub fn xdc_impl(item: &ImplHeader) -> (outcome: Result<ImplExpansion, ImplError>)
    ensures
        match outcome {
            Ok(expansion) => {
                &&& item.accepted()
                &&& expansion.meta_id@ == metadata_name(item.self_ty.bare_ident()->Some_0)
                &&& expansion.entry_id@ == entry_name(
                    item.self_ty.bare_ident()->Some_0,
                    item.trait_->Some_0.segments@,
                )
            },
            Err(error) => item.refused_with(error),
        },
{
    let trait_ = match &item.trait_ {
        Some(t) => t,
        None => {
            return Err(ImplError::NoTrait);
        },
    };
    if trait_.negative {
        return Err(ImplError::NegativeImpl);
    }
    let on_type: &str = match &item.self_ty {
        SelfType::Other => {
            return Err(ImplError::SelfNotPath);
        },
        SelfType::Path { qualified, leading_colon, segments } => {
            if *qualified {
                return Err(ImplError::QualifiedSelf);
            }
            if *leading_colon || segments.len() != 1 || segments[0].has_arguments {
                return Err(ImplError::SelfNotIdent);
            }
            segments[0].ident.as_str()
        },
    };
    let meta_id = metadata_ident(on_type);
    let mut entry_id = metadata_ident(on_type);
    let mut i: usize = 0;
    while i < trait_.segments.len()
        invariant
            item.header_error() is None,
            item.trait_ == Some(*trait_),
            i <= trait_.segments@.len(),
            forall|j: int| 0 <= j < i ==> !(#[trigger] trait_.segments@[j]).has_arguments,
            entry_id@ == entry_name(on_type@, trait_.segments@.take(i as int)),
        decreases trait_.segments@.len() - i,
    {
        if trait_.segments[i].has_arguments {
            return Err(ImplError::TraitArguments { segment: i });
        }
        proof {
            let next = trait_.segments@.take(i + 1);
            assert(next.drop_last() =~= trait_.segments@.take(i as int));
            assert(next.last() == trait_.segments@[i as int]);
        }
        entry_id.append("_");
        entry_id.append(trait_.segments[i].ident.as_str());
        i += 1;
    }
    proof {
        assert(trait_.segments@.take(i as int) =~= trait_.segments@);
    }
    Ok(ImplExpansion { meta_id, entry_id })
}

} // verus!
