//! AMF0 values, as far as a session reads them.

use vstd::prelude::*;

verus! {

/// An AMF0 number by its IEEE 754 bit pattern. A session passes numbers on and
/// never computes with them.
#[derive(Debug, Clone, Copy, PartialEq, Eq, Structural)]
pub struct Number {
    pub bits: u64,
}

/// An AMF0 value. `Other` stands for every kind that no command reads.
pub enum Amf0ValueType {
    Number(Number),
    Boolean(bool),
    UTF8String(String),
    Object(Amf0Object),
    Other,
}

/// The properties of an AMF0 object: a map from names to values, in which no
/// name occurs twice.
pub struct Amf0Object {
    entries: Vec<(String, Amf0ValueType)>,
}

/// The place at which a list of properties holds `name`.
spec fn holds_at(
    entries: Seq<(String, Amf0ValueType)>,
    name: Seq<char>,
    i: int,
) -> bool {
    0 <= i < entries.len() && entries[i].0@ == name
}

impl View for Amf0Object {
    type V = Map<Seq<char>, Amf0ValueType>;

    closed spec fn view(&self) -> Map<Seq<char>, Amf0ValueType> {
        Map::new(
            |name: Seq<char>| exists|i: int| holds_at(self.entries@, name, i),
            |name: Seq<char>| self.entries@[choose|i: int| holds_at(self.entries@, name, i)].1,
        )
    }
}

impl Amf0Object {
    #[verifier::type_invariant]
    spec fn names_are_distinct(self) -> bool {
        forall|i: int, j: int|
            0 <= i < j < self.entries@.len() ==> (#[trigger] self.entries@[i]).0@ != (
            #[trigger] self.entries@[j]).0@
    }

    /// An object without properties.
    pub fn new() -> (object: Self)
        ensures
            object@ == Map::<Seq<char>, Amf0ValueType>::empty(),
    {
        let object = Amf0Object { entries: Vec::new() };
        assert forall|name: Seq<char>| !object@.dom().contains(name) by {
            assert(forall|i: int| !holds_at(object.entries@, name, i));
        }
        assert(object@ =~= Map::<Seq<char>, Amf0ValueType>::empty());
        object
    }

    /// Where the object holds `name`, or the number of its properties.
    fn find(&self, name: &String) -> (index: usize)
        ensures
            index <= self.entries@.len(),
            index < self.entries@.len() ==> holds_at(self.entries@, name@, index as int),
            index == self.entries@.len() ==> forall|i: int| !holds_at(self.entries@, name@, i),
    {
        let mut index: usize = 0;
        while index < self.entries.len()
            invariant
                index <= self.entries@.len(),
                forall|i: int| 0 <= i < index ==> !holds_at(self.entries@, name@, i),
            decreases self.entries@.len() - index,
        {
            if self.entries[index].0 == *name {
                return index;
            }
            index = index + 1;
        }
        index
    }

    /// The object with `name` bound to `value`, whatever `name` was bound to.
    pub fn with(self, name: String, value: Amf0ValueType) -> (object: Self)
        ensures
            object@ == self@.insert(name@, value),
    {
        proof {
            use_type_invariant(&self);
        }
        let ghost before = self.entries@;
        let ghost map_before = self@;
        let ghost key = name@;
        let index = self.find(&name);
        let mut entries = self.entries;
        if index < entries.len() {
            entries[index] = (name, value);
        } else {
            entries.push((name, value));
        }
        assert forall|i: int, j: int| 0 <= i < j < entries@.len() implies (
        #[trigger] entries@[i]).0@ != (#[trigger] entries@[j]).0@ by {
            assert(index == before.len() ==> !holds_at(before, key, i));
            if j < before.len() {
                assert(before[i].0@ != before[j].0@);
            }
        }
        let object = Amf0Object { entries };
        proof {
            let after = object.entries@;
            assert(holds_at(after, key, index as int));
            assert forall|other: Seq<char>|
                object@.dom().contains(other) == map_before.insert(key, value).dom().contains(
                    other,
                ) by {
                if other != key {
                    assert(forall|i: int| holds_at(after, other, i) == holds_at(before, other, i));
                }
            }
            assert forall|other: Seq<char>| #[trigger]
                object@.dom().contains(other) implies object@[other] == map_before.insert(
                key,
                value,
            )[other] by {
                let i = choose|i: int| holds_at(after, other, i);
                assert(holds_at(after, other, i));
                if other == key {
                    assert(i == index);
                } else {
                    assert(holds_at(before, other, i));
                    let k = choose|k: int| holds_at(before, other, k);
                    assert(holds_at(before, other, k));
                    assert(i == k);
                }
            }
            assert(object@ =~= map_before.insert(key, value));
        }
        object
    }

    /// What `name` is bound to.
    pub fn get(&self, name: &String) -> (value: Option<&Amf0ValueType>)
        ensures
            value is Some <==> self@.dom().contains(name@),
            value matches Some(found) ==> *found == self@[name@],
    {
        proof {
            use_type_invariant(self);
        }
        let index = self.find(name);
        if index < self.entries.len() {
            assert(holds_at(self.entries@, name@, index as int));
            let ghost k = choose|k: int| holds_at(self.entries@, name@, k);
            assert(k == index);
            Some(&self.entries[index].1)
        } else {
            None
        }
    }
}

} // verus!
