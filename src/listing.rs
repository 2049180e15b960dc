use vstd::prelude::*;
use vstd::string::{StrSliceExecFns, StringExecFns};

use crate::path::file_name_of;
use crate::record::RecordKind;

verus! {

/// The index of the last `.` among the first `i` characters of `f`, or -1.
pub open spec fn last_dot_before(f: Seq<char>, i: int) -> int
    decreases i,
{
    if i <= 0 {
        -1
    } else if f[i - 1] == '.' {
        i - 1
    } else {
        last_dot_before(f, i - 1)
    }
}

/// The stem of a file name: the part before its last `.`; the whole name
/// where it has no `.` but a leading one, and for `..`.
pub open spec fn stem_of(f: Seq<char>) -> Seq<char> {
    let k = last_dot_before(f, f.len() as int);
    if f == seq!['.', '.'] || k <= 0 {
        f
    } else {
        f.subrange(0, k)
    }
}

/// The stem of a file name, the name of the record that the file stores.
pub fn file_stem(file_name: &str) -> (r: String)
    ensures
        r@ == stem_of(file_name@),
{
    let ghost f = file_name@;
    let n = file_name.unicode_len();
    if n == 2 && file_name.get_char(0) == '.' && file_name.get_char(1) == '.' {
        assert(f =~= seq!['.', '.']);
        return String::from_str(file_name);
    }
    let mut i: usize = n;
    while i > 0 && file_name.get_char(i - 1) != '.'
        invariant
            i <= n,
            n == f.len(),
            f == file_name@,
            last_dot_before(f, n as int) == last_dot_before(f, i as int),
        decreases i,
    {
        i = i - 1;
    }
    if i <= 1 {
        String::from_str(file_name)
    } else {
        String::from_str(file_name.substring_char(0, i - 1))
    }
}

/// The record names that a collection directory's entries stand for, in the
/// order of the entries.
pub fn names_from_entries(entries: &Vec<String>) -> (r: Vec<String>)
    ensures
        r@.len() == entries@.len(),
        forall|i: int| 0 <= i < r@.len() ==> (#[trigger] r@[i])@ == stem_of(entries@[i]@),
{
    let mut r: Vec<String> = Vec::new();
    let mut i: usize = 0;
    while i < entries.len()
        invariant
            i <= entries@.len(),
            r@.len() == i,
            forall|j: int| 0 <= j < i ==> (#[trigger] r@[j])@ == stem_of(entries@[j]@),
        decreases entries@.len() - i,
    {
        r.push(file_stem(entries[i].as_str()));
        i = i + 1;
    }
    r
}

/// `No <collection> found`
pub open spec fn empty_message(collection: Seq<char>) -> Seq<char> {
    seq!['N', 'o', ' '] + collection + seq![' ', 'f', 'o', 'u', 'n', 'd']
}

/// The lines that show a collection: its names, or one line saying that it
/// is empty.
pub fn listing_lines<K: RecordKind>(names: Vec<String>) -> (r: Vec<String>)
    ensures
        names@.len() == 0 ==> r@.len() == 1 && r@[0]@ == empty_message(K::spec_collection_name()),
        names@.len() > 0 ==> r@ == names@,
{
    if names.len() == 0 {
        proof {
            reveal_strlit("No ");
            reveal_strlit(" found");
        }
        let mut line = String::from_str("No ");
        line.append(K::collection_name());
        line.append(" found");
        assert(line@ =~= empty_message(K::spec_collection_name()));
        let mut r: Vec<String> = Vec::new();
        r.push(line);
        r
    } else {
        names
    }
}

/// The file that stores a record lists back as the record's name.
pub proof fn lemma_stem_of_file_name(name: Seq<char>)
    requires
        name.len() > 0,
    ensures
        stem_of(file_name_of(name)) == name,
{
    let f = file_name_of(name);
    let n = name.len() as int;
    assert(f.len() == n + 5);
    assert(f[n] == '.');
    assert(f[n + 1] == 'j' && f[n + 2] == 's' && f[n + 3] == 'o' && f[n + 4] == 'n');
    assert(last_dot_before(f, n + 1) == n);
    assert(last_dot_before(f, n + 2) == n);
    assert(last_dot_before(f, n + 3) == n);
    assert(last_dot_before(f, n + 4) == n);
    assert(last_dot_before(f, n + 5) == n);
    assert(f.subrange(0, n) =~= name);
}

/// A collection whose entries are the files of records with the given
/// non-empty names lists exactly those names, in the order of the entries.
pub proof fn lemma_listing_complete(names: Seq<Seq<char>>)
    requires
        forall|i: int| 0 <= i < names.len() ==> (#[trigger] names[i]).len() > 0,
    ensures
        names.map_values(|n: Seq<char>| file_name_of(n)).map_values(|f: Seq<char>| stem_of(f))
            == names,
{
    let listed = names.map_values(|n: Seq<char>| file_name_of(n)).map_values(
        |f: Seq<char>| stem_of(f),
    );
    assert forall|i: int| 0 <= i < names.len() implies listed[i] == names[i] by {
        lemma_stem_of_file_name(names[i]);
    }
    assert(listed =~= names);
}

} // verus!
