//! Runtime values: plaintexts, records and their mathematical models.
use vstd::prelude::*;

use crate::error::StackError;
use crate::identifier::{find_named, first_index, names_of, path_names, Identifier, Name};

verus! {

/// Who may see a value: it is a constant of the program, it is public, or
/// it is private to the owner.
#[derive(Clone, Copy, Debug, PartialEq, Eq, Structural)]
pub enum Visibility {
    Constant,
    Public,
    Private,
}

/// A plaintext: a literal, or a struct of named plaintexts in a fixed order.
#[derive(Debug, PartialEq, Eq)]
pub enum Plaintext<L> {
    Literal(L),
    Struct(Vec<(Identifier, Plaintext<L>)>),
}

/// One field of a record: a plaintext and who may see it.
#[derive(Debug, PartialEq, Eq)]
pub struct Entry<L> {
    pub visibility: Visibility,
    pub plaintext: Plaintext<L>,
}

/// A record: its owner, held as a literal of kind address, and its fields in
/// a fixed order.
#[derive(Debug, PartialEq, Eq)]
pub struct Record<L> {
    pub owner: L,
    pub data: Vec<(Identifier, Entry<L>)>,
}

/// A value that a register can hold.
#[derive(Debug, PartialEq, Eq)]
pub enum Value<L> {
    Plaintext(Plaintext<L>),
    Record(Record<L>),
}

/// The mathematical value of a plaintext.
pub enum PlaintextModel<L> {
    Literal(L),
    Struct(Seq<(Name, PlaintextModel<L>)>),
}

/// The mathematical value of a record field.
pub struct EntryModel<L> {
    pub visibility: Visibility,
    pub plaintext: PlaintextModel<L>,
}

/// The mathematical value of a record.
pub struct RecordModel<L> {
    pub owner: L,
    pub data: Seq<(Name, EntryModel<L>)>,
}

/// The mathematical value of a register value.
pub enum ValueModel<L> {
    Plaintext(PlaintextModel<L>),
    Record(RecordModel<L>),
}

impl<L> Plaintext<L> {
    /// The mathematical value of the plaintext: the literal itself, or the
    /// members' names with the members' mathematical values, in their order.
    pub open spec fn model(self) -> PlaintextModel<L>
        decreases self,
    {
        match self {
            Plaintext::Literal(literal) => PlaintextModel::Literal(literal),
            Plaintext::Struct(members) => PlaintextModel::Struct(
                Seq::new(
                    members@.len(),
                    |i: int|
                        if 0 <= i < members@.len() {
                            (members@[i].0@, members@[i].1.model())
                        } else {
                            arbitrary()
                        },
                ),
            ),
        }
    }
}

impl<L> View for Plaintext<L> {
    type V = PlaintextModel<L>;

    open spec fn view(&self) -> PlaintextModel<L> {
        self.model()
    }
}

impl<L> View for Entry<L> {
    type V = EntryModel<L>;

    open spec fn view(&self) -> EntryModel<L> {
        EntryModel { visibility: self.visibility, plaintext: self.plaintext@ }
    }
}

impl<L> View for Record<L> {
    type V = RecordModel<L>;

    open spec fn view(&self) -> RecordModel<L> {
        RecordModel {
            owner: self.owner,
            data: Seq::new(self.data@.len(), |i: int| (self.data@[i].0@, self.data@[i].1@)),
        }
    }
}

impl<L> View for Value<L> {
    type V = ValueModel<L>;

    open spec fn view(&self) -> ValueModel<L> {
        match self {
            Value::Plaintext(plaintext) => ValueModel::Plaintext(plaintext@),
            Value::Record(record) => ValueModel::Record(record@),
        }
    }
}

/// The names of the members, in their order.
pub open spec fn member_names<T>(members: Seq<(Name, T)>) -> Seq<Name> {
    Seq::new(members.len(), |i: int| members[i].0)
}

/// The index of the first member that goes by `name`.
pub open spec fn member_index<T>(members: Seq<(Name, T)>, name: Name) -> Option<int> {
    first_index(member_names(members), name)
}

/// The plaintext reached from `plaintext` by following the names of `path`
/// from position `start` on, each name choosing a member of a struct. There
/// is none where a name meets a literal or a struct without such a member.
pub open spec fn project_plaintext<L>(
    plaintext: PlaintextModel<L>,
    path: Seq<Name>,
    start: int,
) -> Option<PlaintextModel<L>>
    decreases path.len() - start,
{
    if start < 0 || start >= path.len() {
        Some(plaintext)
    } else {
        match plaintext {
            PlaintextModel::Literal(_) => None,
            PlaintextModel::Struct(members) => match member_index(members, path[start]) {
                Some(i) => project_plaintext(members[i].1, path, start + 1),
                None => None,
            },
        }
    }
}

/// The value reached from `value` by following `path`. The empty path
/// reaches the value itself. The first name of a path into a record chooses
/// one of its fields; every other name chooses a member of a struct.
pub open spec fn project<L>(value: ValueModel<L>, path: Seq<Name>) -> Option<ValueModel<L>> {
    if path.len() == 0 {
        Some(value)
    } else {
        match value {
            ValueModel::Plaintext(plaintext) => match project_plaintext(plaintext, path, 0) {
                Some(found) => Some(ValueModel::Plaintext(found)),
                None => None,
            },
            ValueModel::Record(record) => match member_index(record.data, path[0]) {
                Some(i) => match project_plaintext(record.data[i].1.plaintext, path, 1) {
                    Some(found) => Some(ValueModel::Plaintext(found)),
                    None => None,
                },
                None => None,
            },
        }
    }
}

impl<L: Copy> Clone for Plaintext<L> {
    #[verifier::loop_isolation(false)]
    fn clone(&self) -> (copy: Self)
        ensures
            copy@ == self@,
        decreases self,
    {
        match self {
            Plaintext::Literal(literal) => Plaintext::Literal(*literal),
            Plaintext::Struct(members) => {
                let mut copies: Vec<(Identifier, Plaintext<L>)> = Vec::new();
                let mut i: usize = 0;
                while i < members.len()
                    invariant
                        i <= members.len(),
                        copies.len() == i,
                        forall|j: int|
                            0 <= j < i ==> copies@[j].0@ == members@[j].0@ && copies@[j].1@
                                == members@[j].1@,
                    decreases members.len() - i,
                {
                    let name = members[i].0.clone();
                    let member = members[i].1.clone();
                    copies.push((name, member));
                    i = i + 1;
                }
                let copy = Plaintext::Struct(copies);
                assert(copy@->Struct_0 =~= self@->Struct_0);
                copy
            },
        }
    }
}

impl<L: Copy> Clone for Entry<L> {
    fn clone(&self) -> (copy: Self)
        ensures
            copy@ == self@,
    {
        Entry { visibility: self.visibility, plaintext: self.plaintext.clone() }
    }
}

impl<L: Copy> Clone for Record<L> {
    fn clone(&self) -> (copy: Self)
        ensures
            copy@ == self@,
    {
        let mut copies: Vec<(Identifier, Entry<L>)> = Vec::new();
        let mut i: usize = 0;
        while i < self.data.len()
            invariant
                i <= self.data.len(),
                copies.len() == i,
                forall|j: int|
                    0 <= j < i ==> copies@[j].0@ == self.data@[j].0@ && copies@[j].1@
                        == self.data@[j].1@,
            decreases self.data.len() - i,
        {
            let name = self.data[i].0.clone();
            let entry = self.data[i].1.clone();
            copies.push((name, entry));
            i = i + 1;
        }
        let copy = Record { owner: self.owner, data: copies };
        assert(copy@.data =~= self@.data);
        copy
    }
}

impl<L: Copy> Clone for Value<L> {
    fn clone(&self) -> (copy: Self)
        ensures
            copy@ == self@,
    {
        match self {
            Value::Plaintext(plaintext) => Value::Plaintext(plaintext.clone()),
            Value::Record(record) => Value::Record(record.clone()),
        }
    }
}

impl<L: Copy> Plaintext<L> {
    /// Follows `path` from position `start` on into the plaintext, and hands
    /// out a copy of what it reaches.
    fn find_from(&self, path: &Vec<Identifier>, start: usize) -> (found: Result<
        Plaintext<L>,
        StackError,
    >)
        requires
            start <= path.len(),
        ensures
            match found {
                Ok(plaintext) => project_plaintext(self@, path_names(path@), start as int) == Some(
                    plaintext@,
                ),
                Err(error) => error == StackError::NotFound && project_plaintext(
                    self@,
                    path_names(path@),
                    start as int,
                ) is None,
            },
    {
        let ghost names = path_names(path@);
        let mut current: &Plaintext<L> = self;
        let mut i: usize = start;
        while i < path.len()
            invariant
                start <= i <= path.len(),
                names == path_names(path@),
                project_plaintext(self@, names, start as int) == project_plaintext(
                    current@,
                    names,
                    i as int,
                ),
            decreases path.len() - i,
        {
            match current {
                Plaintext::Literal(_) => {
                    return Err(StackError::NotFound);
                },
                Plaintext::Struct(members) => {
                    assert(member_names(current@->Struct_0) =~= names_of(members@));
                    match find_named(members, &path[i]) {
                        Some(k) => {
                            current = &members[k].1;
                        },
                        None => {
                            return Err(StackError::NotFound);
                        },
                    }
                },
            }
            i = i + 1;
        }
        Ok(current.clone())
    }

    /// Follows `path` into the plaintext, and hands out a copy of what it
    /// reaches.
    pub fn find(&self, path: &Vec<Identifier>) -> (found: Result<Plaintext<L>, StackError>)
        ensures
            match found {
                Ok(plaintext) => project_plaintext(self@, path_names(path@), 0) == Some(
                    plaintext@,
                ),
                Err(error) => error == StackError::NotFound && project_plaintext(
                    self@,
                    path_names(path@),
                    0,
                ) is None,
            },
    {
        self.find_from(path, 0)
    }
}

impl<L: Copy> Value<L> {
    /// Follows `path` into the value, and hands out a copy of what it
    /// reaches: the value itself for the empty path, else a plaintext.
    pub fn find(&self, path: &Vec<Identifier>) -> (found: Result<Value<L>, StackError>)
        ensures
            match found {
                Ok(value) => project(self@, path_names(path@)) == Some(value@),
                Err(error) => error == StackError::NotFound && project(self@, path_names(path@))
                    is None,
            },
    {
        if path.len() == 0 {
            return Ok(self.clone());
        }
        match self {
            Value::Plaintext(plaintext) => match plaintext.find_from(path, 0) {
                Ok(found) => Ok(Value::Plaintext(found)),
                Err(error) => Err(error),
            },
            Value::Record(record) => {
                assert(member_names(record@.data) =~= names_of(record.data@));
                match find_named(&record.data, &path[0]) {
                    Some(k) => match record.data[k].1.plaintext.find_from(path, 1) {
                        Ok(found) => Ok(Value::Plaintext(found)),
                        Err(error) => Err(error),
                    },
                    None => Err(StackError::NotFound),
                }
            },
        }
    }
}

} // verus!
