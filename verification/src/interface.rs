//! Interface identities and the registry that issues them.

use vstd::prelude::*;
use vstd::string::*;

verus! {

/// The identity of one capability interface.
///
/// Two interfaces are the same exactly when their identifiers are equal; the
/// number inside carries no other meaning and is not stable between builds.
#[derive(Clone, Copy, Debug, PartialEq, Eq, Structural)]
pub struct InterfaceId(pub u64);

/// The identifier reserved for the base capability that every castable
/// object offers.
pub open spec fn base_interface() -> InterfaceId {
    InterfaceId(0)
}

impl InterfaceId {
    /// The identifier of the base capability.
    pub fn base() -> (id: InterfaceId)
        ensures
            id == base_interface(),
    {
        InterfaceId(0)
    }

    /// Whether this is the identifier of the base capability.
    pub fn is_base(&self) -> (b: bool)
        ensures
            b == (*self == base_interface()),
    {
        self.0 == 0
    }
}

/// Issues interface identifiers.
///
/// The registry remembers the declared name of every interface in the order
/// of declaration. The base capability holds identifier 0 and has no name;
/// the n-th declared interface (counting from 1) holds identifier n. A name
/// keeps the identifier it was first given, so declaring it again is
/// harmless.
pub struct InterfaceRegistry {
    names: Vec<String>,
}

impl View for InterfaceRegistry {
    type V = Seq<Seq<char>>;

    /// The declared names, oldest first.
    closed spec fn view(&self) -> Seq<Seq<char>> {
        names_of(self.names@)
    }
}

/// The character sequences that a list of strings holds.
spec fn names_of(names: Seq<String>) -> Seq<Seq<char>> {
    Seq::new(names.len(), |i: int| names[i]@)
}

impl InterfaceRegistry {
    /// No name is declared twice, and the names can be counted.
    #[verifier::type_invariant]
    pub open spec fn wf(&self) -> bool {
        self@.no_duplicates() && self@.len() <= usize::MAX
    }

    /// Whether `name` has been declared.
    pub open spec fn declares(&self, name: Seq<char>) -> bool {
        self@.contains(name)
    }

    /// The identifier that the declared interface `name` holds.
    pub open spec fn id_of(&self, name: Seq<char>) -> InterfaceId
        recommends
            self.declares(name),
    {
        InterfaceId((self@.index_of(name) + 1) as u64)
    }

    /// Whether `id` is the base identifier or was issued by this registry.
    pub open spec fn issued(&self, id: InterfaceId) -> bool {
        id.0 <= self@.len()
    }

    /// A registry that knows the base capability only.
    pub fn new() -> (registry: Self)
        ensures
            registry@ == Seq::<Seq<char>>::empty(),
            registry.wf(),
    {
        let registry = InterfaceRegistry { names: Vec::new() };
        assert(registry@ =~= Seq::<Seq<char>>::empty());
        registry
    }

    /// The number of declared interfaces, the base capability not counted.
    pub fn len(&self) -> (n: usize)
        ensures
            n == self@.len(),
    {
        self.names.len()
    }

    /// The position of `name` among the declared names.
    fn position(&self, name: &String) -> (found: Option<usize>)
        ensures
            match found {
                Some(i) => i < self@.len() && self@[i as int] == name@,
                None => !self.declares(name@),
            },
    {
        let mut i: usize = 0;
        while i < self.names.len()
            invariant
                i <= self.names@.len(),
                forall|j: int| 0 <= j < i ==> self@[j] != name@,
            decreases self.names@.len() - i,
        {
            if self.names[i] == *name {
                return Some(i);
            }
            i += 1;
        }
        None
    }

    /// Whether `id` is the base identifier or was issued by this registry.
    pub fn is_registered(&self, id: InterfaceId) -> (b: bool)
        ensures
            b == self.issued(id),
    {
        id.0 <= self.names.len() as u64
    }

    /// Declares the interface `name` and returns its identifier.
    ///
    /// A name that is new gets the next unused identifier, which is never the
    /// base identifier. A name that was declared before keeps its identifier
    /// and the registry stays as it was. Identifiers issued earlier are never
    /// changed.
    pub fn register_interface(&mut self, name: &str) -> (id: InterfaceId)
        ensures
            final(self).wf(),
            old(self).declares(name@) ==> final(self)@ == old(self)@,
            !old(self).declares(name@) ==> final(self)@ == old(self)@.push(name@),
            final(self).declares(name@),
            id == final(self).id_of(name@),
            id != base_interface(),
            final(self).issued(id),
            old(self).declares(name@) <==> old(self).issued(id),
            (forall|other: Seq<char>| #[trigger]
                old(self).declares(other) ==> {
                    &&& final(self).declares(other)
                    &&& final(self).id_of(other) == old(self).id_of(other)
                }),
    {
        proof {
            use_type_invariant(&*self);
        }
        let owned = name.to_owned();
        let count: usize = self.names.len();
        match self.position(&owned) {
            Some(i) => {
                proof {
                    assert(self@.index_of(name@) == i);
                    assert(i < count);
                }
                InterfaceId((i + 1) as u64)
            },
            None => {
                let ghost before = self@;
                // The names are taken out and put back as a whole, so that
                // the invariant holds of the registry at every step.
                let mut taken = InterfaceRegistry { names: Vec::new() };
                core::mem::swap(self, &mut taken);
                let mut names = taken.names;
                names.push(owned);
                proof {
                    let after = names_of(names@);
                    assert(after =~= before.push(name@));
                    assert(after[before.len() as int] == name@);
                    assert(after.no_duplicates());
                    assert(after.index_of(name@) == before.len());
                    assert forall|other: Seq<char>| #[trigger]
                        before.contains(other) implies {
                        &&& after.contains(other)
                        &&& after.index_of(other) == before.index_of(other)
                    } by {
                        let k = before.index_of(other);
                        assert(after[k] == other);
                    }
                }
                let id = InterfaceId(names.len() as u64);
                *self = InterfaceRegistry { names };
                id
            },
        }
    }
}

/// Two declared interfaces are the same exactly when their identifiers are
/// equal, and neither holds the identifier of the base capability.
pub proof fn lemma_identifiers_distinguish(
    registry: InterfaceRegistry,
    one: Seq<char>,
    other: Seq<char>,
)
    requires
        registry.wf(),
        registry.declares(one),
        registry.declares(other),
    ensures
        registry.id_of(one) == registry.id_of(other) <==> one == other,
        registry.id_of(one) != base_interface(),
        registry.issued(registry.id_of(one)),
{
    let i = registry@.index_of(one);
    let j = registry@.index_of(other);
    assert(registry@[i] == one);
    assert(registry@[j] == other);
}

/// The identifier of the declared interface `name`, if it has one.
pub fn type_id(registry: &InterfaceRegistry, name: &str) -> (id: Option<InterfaceId>)
    ensures
        id == if registry.declares(name@) {
            Some(registry.id_of(name@))
        } else {
            None
        },
{
    proof {
        use_type_invariant(registry);
    }
    let owned = name.to_owned();
    let count: usize = registry.len();
    match registry.position(&owned) {
        Some(i) => {
            proof {
                assert(registry@.index_of(name@) == i);
                assert(i < count);
            }
            Some(InterfaceId((i + 1) as u64))
        },
        None => None,
    }
}

} // verus!
