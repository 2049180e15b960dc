use vstd::prelude::*;
use crate::path::{default_root, derive_path, extension, record_path, spec_default_root};

verus! {

/// The fields of a record as mathematical values: name, owner, age.
pub type RecordFields = (Seq<char>, Seq<char>, u8);

/// What the store needs to know of a kind of record: the directory that holds
/// its collection, and how to take a record apart and build one.
pub trait RecordKind: Sized {
    /// The name of the kind's collection directory.
    spec fn spec_collection_name() -> Seq<char>;

    /// The record's fields.
    spec fn fields(&self) -> RecordFields;

    fn collection_name() -> (r: &'static str)
        ensures
            r@ == Self::spec_collection_name(),
    ;

    /// The extension of the kind's record files.
    fn file_extension() -> (r: &'static str)
        ensures
            r@ == extension(),
    ;

    fn from_fields(name: String, owner: String, age: u8) -> (r: Self)
        ensures
            r.fields() == (name@, owner@, age),
    ;

    fn name(&self) -> (r: &str)
        ensures
            r@ == self.fields().0,
    ;

    fn owner(&self) -> (r: &str)
        ensures
            r@ == self.fields().1,
    ;

    fn age(&self) -> (r: u8)
        ensures
            r == self.fields().2,
    ;
}

/// A dog, keyed by its name within the dog collection.
#[derive(Debug)]
pub struct Dog {
    pub name: String,
    pub owner: String,
    pub age: u8,
}

/// A cat, keyed by its name within the cat collection.
#[derive(Debug)]
pub struct Cat {
    pub name: String,
    pub owner: String,
    pub age: u8,
}

impl Dog {
    pub fn new(name: String, owner: String, age: u8) -> (r: Self)
        ensures
            r.name@ == name@,
            r.owner@ == owner@,
            r.age == age,
    {
        Dog { name, owner, age }
    }

    /// The file that stores this record under the default collection root.
    pub fn path(&self) -> (r: String)
        ensures
            r@ == record_path(spec_default_root(), Self::spec_collection_name(), self.name@),
    {
        derive_path::<Dog>(default_root(), self.name.as_str())
    }
}

impl Cat {
    pub fn new(name: String, owner: String, age: u8) -> (r: Self)
        ensures
            r.name@ == name@,
            r.owner@ == owner@,
            r.age == age,
    {
        Cat { name, owner, age }
    }

    /// The file that stores this record under the default collection root.
    pub fn path(&self) -> (r: String)
        ensures
            r@ == record_path(spec_default_root(), Self::spec_collection_name(), self.name@),
    {
        derive_path::<Cat>(default_root(), self.name.as_str())
    }
}

impl RecordKind for Dog {
    open spec fn spec_collection_name() -> Seq<char> {
        seq!['d', 'o', 'g', 's']
    }

    open spec fn fields(&self) -> RecordFields {
        (self.name@, self.owner@, self.age)
    }

    fn collection_name() -> (r: &'static str) {
        proof {
            reveal_strlit("dogs");
        }
        "dogs"
    }

    fn file_extension() -> (r: &'static str) {
        proof {
            reveal_strlit("json");
        }
        "json"
    }

    fn from_fields(name: String, owner: String, age: u8) -> (r: Self) {
        Dog::new(name, owner, age)
    }

    fn name(&self) -> (r: &str) {
        self.name.as_str()
    }

    fn owner(&self) -> (r: &str) {
        self.owner.as_str()
    }

    fn age(&self) -> (r: u8) {
        self.age
    }
}

impl RecordKind for Cat {
    open spec fn spec_collection_name() -> Seq<char> {
        seq!['c', 'a', 't', 's']
    }

    open spec fn fields(&self) -> RecordFields {
        (self.name@, self.owner@, self.age)
    }

    fn collection_name() -> (r: &'static str) {
        proof {
            reveal_strlit("cats");
        }
        "cats"
    }

    fn file_extension() -> (r: &'static str) {
        proof {
            reveal_strlit("json");
        }
        "json"
    }

    fn from_fields(name: String, owner: String, age: u8) -> (r: Self) {
        Cat::new(name, owner, age)
    }

    fn name(&self) -> (r: &str) {
        self.name.as_str()
    }

    fn owner(&self) -> (r: &str) {
        self.owner.as_str()
    }

    fn age(&self) -> (r: u8) {
        self.age
    }
}

} // verus!
