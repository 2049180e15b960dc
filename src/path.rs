use vstd::prelude::*;
use vstd::string::StringExecFns;

use crate::record::{Cat, Dog, RecordKind};

verus! {

/// The extension of every record file.
pub open spec fn extension() -> Seq<char> {
    seq!['j', 's', 'o', 'n']
}

/// The collection root that the command-line tool uses.
pub open spec fn spec_default_root() -> Seq<char> {
    seq!['a', 'n', 'i', 'm', 'a', 'l', 's']
}

/// The directory that holds a collection.
pub open spec fn dir_path(root: Seq<char>, collection: Seq<char>) -> Seq<char> {
    root + seq!['/'] + collection
}

/// The file name under which a record of the given name is stored.
pub open spec fn file_name_of(name: Seq<char>) -> Seq<char> {
    name + seq!['.'] + extension()
}

/// `<root>/<collection>/<name>.json`
pub open spec fn record_path(root: Seq<char>, collection: Seq<char>, name: Seq<char>) -> Seq<char> {
    dir_path(root, collection) + seq!['/'] + file_name_of(name)
}

pub fn default_root() -> (r: &'static str)
    ensures
        r@ == spec_default_root(),
{
    proof {
        reveal_strlit("animals");
    }
    "animals"
}

/// The directory of kind `K`'s collection under `root`.
pub fn collection_dir<K: RecordKind>(root: &str) -> (r: String)
    ensures
        r@ == dir_path(root@, K::spec_collection_name()),
{
    let mut r = String::from_str(root);
    proof {
        reveal_strlit("/");
    }
    r.append("/");
    r.append(K::collection_name());
    r
}

/// The file that holds the record of kind `K` named `name` under `root`.
/// The name is used as it is: one that holds a `/` leads out of the
/// collection directory.
pub fn derive_path<K: RecordKind>(root: &str, name: &str) -> (r: String)
    ensures
        r@ == record_path(root@, K::spec_collection_name(), name@),
{
    let mut r = collection_dir::<K>(root);
    proof {
        reveal_strlit("/");
        reveal_strlit(".");
    }
    r.append("/");
    r.append(name);
    r.append(".");
    r.append(K::file_extension());
    proof {
        assert(r@ =~= record_path(root@, K::spec_collection_name(), name@));
    }
    r
}

/// Within one collection, two names share a file exactly when they are equal:
/// saving under a name that is already stored replaces that record, and
/// records of different names never meet.
pub proof fn lemma_path_identifies_name(
    root: Seq<char>,
    collection: Seq<char>,
    a: Seq<char>,
    b: Seq<char>,
)
    ensures
        (record_path(root, collection, a) == record_path(root, collection, b)) <==> (a == b),
{
    let pa = record_path(root, collection, a);
    let pb = record_path(root, collection, b);
    let k = root.len() + collection.len() + 2int;
    assert(extension().len() == 4);
    assert(pa.len() == k + a.len() + 5);
    assert(pb.len() == k + b.len() + 5);
    if pa == pb {
        assert(a =~= pa.subrange(k, k + a.len()));
        assert(b =~= pb.subrange(k, k + b.len()));
    }
}

/// No file of the dog collection is a file of the cat collection.
pub proof fn lemma_collections_apart(root: Seq<char>, a: Seq<char>, b: Seq<char>)
    ensures
        record_path(root, Dog::spec_collection_name(), a) != record_path(
            root,
            Cat::spec_collection_name(),
            b,
        ),
{
    let pa = record_path(root, Dog::spec_collection_name(), a);
    let pb = record_path(root, Cat::spec_collection_name(), b);
    assert(pa[root.len() + 1int] == 'd');
    assert(pb[root.len() + 1int] == 'c');
}

} // verus!
