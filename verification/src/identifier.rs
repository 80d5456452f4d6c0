//! Names: identifiers, program identifiers and locators.
use vstd::prelude::*;

verus! {

/// The mathematical value of a name: its characters.
pub type Name = Seq<char>;

/// The mathematical value of a program identifier: its name and its network.
pub type ProgramName = (Name, Name);

/// The mathematical value of a locator: the program and the resource in it.
pub type LocatorName = (ProgramName, Name);

/// A name within a program: of a function, a struct, a record or a member.
#[derive(Debug, PartialEq, Eq)]
pub struct Identifier {
    pub name: String,
}

impl View for Identifier {
    type V = Name;

    open spec fn view(&self) -> Name {
        self.name@
    }
}

impl Clone for Identifier {
    fn clone(&self) -> (copy: Self)
        ensures
            copy == *self,
    {
        Identifier { name: self.name.clone() }
    }
}

impl Identifier {
    /// The identifier with the given characters.
    pub fn new(name: &str) -> (identifier: Identifier)
        ensures
            identifier@ == name@,
    {
        Identifier { name: name.to_owned() }
    }

    /// Whether two identifiers spell the same name.
    pub fn same_as(&self, other: &Identifier) -> (same: bool)
        ensures
            same == (self@ == other@),
    {
        self.name == other.name
    }
}

/// The identifier of a program: its name and the network it lives on.
#[derive(Debug, PartialEq, Eq)]
pub struct ProgramID {
    pub name: Identifier,
    pub network: Identifier,
}

impl View for ProgramID {
    type V = ProgramName;

    open spec fn view(&self) -> ProgramName {
        (self.name@, self.network@)
    }
}

impl Clone for ProgramID {
    fn clone(&self) -> (copy: Self)
        ensures
            copy == *self,
    {
        ProgramID { name: self.name.clone(), network: self.network.clone() }
    }
}

impl ProgramID {
    /// The program identifier `name.network`.
    pub fn new(name: &str, network: &str) -> (id: ProgramID)
        ensures
            id@ == (name@, network@),
    {
        ProgramID { name: Identifier::new(name), network: Identifier::new(network) }
    }

    /// Whether two program identifiers name the same program.
    pub fn same_as(&self, other: &ProgramID) -> (same: bool)
        ensures
            same == (self@ == other@),
    {
        self.name.same_as(&other.name) && self.network.same_as(&other.network)
    }
}

/// A fully qualified reference to a resource of another program.
#[derive(Debug, PartialEq, Eq)]
pub struct Locator {
    pub program_id: ProgramID,
    pub resource: Identifier,
}

impl View for Locator {
    type V = LocatorName;

    open spec fn view(&self) -> LocatorName {
        (self.program_id@, self.resource@)
    }
}

impl Clone for Locator {
    fn clone(&self) -> (copy: Self)
        ensures
            copy == *self,
    {
        Locator { program_id: self.program_id.clone(), resource: self.resource.clone() }
    }
}

impl Locator {
    /// The locator of `resource` in the program `program_id`.
    pub fn new(program_id: ProgramID, resource: Identifier) -> (locator: Locator)
        ensures
            locator.program_id == program_id,
            locator.resource == resource,
    {
        Locator { program_id, resource }
    }
}

/// The index of the first key in `keys` that equals `key`, from `start` on.
pub open spec fn first_index_from<K>(keys: Seq<K>, key: K, start: int) -> Option<int>
    decreases keys.len() - start,
{
    if start < 0 || start >= keys.len() {
        None
    } else if keys[start] == key {
        Some(start)
    } else {
        first_index_from(keys, key, start + 1)
    }
}

/// The index of the first key in `keys` that equals `key`.
pub open spec fn first_index<K>(keys: Seq<K>, key: K) -> Option<int> {
    first_index_from(keys, key, 0)
}

/// What `first_index_from` finds is the least index at or after `start` that
/// holds `key`, and it finds nothing exactly when no such index exists.
pub proof fn lemma_first_index_from<K>(keys: Seq<K>, key: K, start: int)
    requires
        0 <= start,
    ensures
        match first_index_from(keys, key, start) {
            Some(i) => {
                &&& start <= i < keys.len()
                &&& keys[i] == key
                &&& forall|j: int| start <= j < i ==> keys[j] != key
            },
            None => forall|j: int| start <= j < keys.len() ==> keys[j] != key,
        },
    decreases keys.len() - start,
{
    if start < keys.len() && keys[start] != key {
        lemma_first_index_from(keys, key, start + 1);
    }
}

/// `first_index` finds the least index that holds `key`, and nothing exactly
/// when `key` does not occur.
pub proof fn lemma_first_index<K>(keys: Seq<K>, key: K)
    ensures
        match first_index(keys, key) {
            Some(i) => {
                &&& 0 <= i < keys.len()
                &&& keys[i] == key
                &&& forall|j: int| 0 <= j < i ==> keys[j] != key
            },
            None => forall|j: int| 0 <= j < keys.len() ==> keys[j] != key,
        },
{
    lemma_first_index_from(keys, key, 0);
}

/// Something that is found by its name.
pub trait Named {
    /// The name by which the item is found.
    spec fn name(&self) -> Name;

    /// The identifier that spells the item's name.
    fn identifier(&self) -> (id: &Identifier)
        ensures
            id@ == self.name(),
    ;
}

impl<T> Named for (Identifier, T) {
    open spec fn name(&self) -> Name {
        self.0@
    }

    fn identifier(&self) -> (id: &Identifier) {
        &self.0
    }
}

/// The names of the items, in their order.
pub open spec fn names_of<T: Named>(items: Seq<T>) -> Seq<Name> {
    Seq::new(items.len(), |i: int| items[i].name())
}

/// The names that the identifiers spell, in their order.
pub open spec fn path_names(path: Seq<Identifier>) -> Seq<Name> {
    Seq::new(path.len(), |i: int| path[i]@)
}

/// Finds the first item that goes by `name`.
pub fn find_named<T: Named>(items: &Vec<T>, name: &Identifier) -> (found: Option<usize>)
    ensures
        match found {
            Some(i) => first_index(names_of(items@), name@) == Some(i as int) && i < items.len(),
            None => first_index(names_of(items@), name@) is None,
        },
{
    let ghost names = names_of(items@);
    let mut i: usize = 0;
    while i < items.len()
        invariant
            i <= items.len(),
            names == names_of(items@),
            first_index(names, name@) == first_index_from(names, name@, i as int),
        decreases items.len() - i,
    {
        if items[i].identifier().same_as(name) {
            return Some(i);
        }
        i = i + 1;
    }
    None
}

} // verus!
