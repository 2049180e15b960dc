use vstd::prelude::*;
use vstd::string::StrSliceExecFns;

use crate::age::{age_digits, decimal_value, is_age_text, parse_age};
use crate::codec::{document, encode_record};
use crate::error::StoreError;
use crate::path::{derive_path, record_path};
use crate::record::{RecordFields, RecordKind};

verus! {

/// The fields given for a new record are accepted: a non-empty name, a
/// non-empty owner and an age text that reads as an age.
pub open spec fn accepts_new(name: Seq<char>, owner: Seq<char>, age_text: Seq<char>) -> bool {
    name.len() > 0 && owner.len() > 0 && is_age_text(age_text)
}

/// The fields of the record made from accepted input.
pub open spec fn new_fields(name: Seq<char>, owner: Seq<char>, age_text: Seq<char>) -> RecordFields {
    (name, owner, decimal_value(age_digits(age_text)) as u8)
}

/// Makes a record of kind `K` from the name, owner and age text given for it.
pub fn build_record<K: RecordKind>(name: String, owner: String, age_text: &str) -> (r: Result<
    K,
    StoreError,
>)
    ensures
        r is Ok <==> accepts_new(name@, owner@, age_text@),
        match r {
            Ok(rec) => rec.fields() == new_fields(name@, owner@, age_text@),
            Err(e) => e == StoreError::InvalidArgument,
        },
{
    if name.as_str().unicode_len() == 0 || owner.as_str().unicode_len() == 0 {
        return Err(StoreError::InvalidArgument);
    }
    match parse_age(age_text) {
        Ok(age) => Ok(K::from_fields(name, owner, age)),
        Err(e) => Err(e),
    }
}

/// The file that stores `rec` under `root`, and the text to write there.
pub fn save_plan<K: RecordKind>(root: &str, rec: &K) -> (r: Result<(String, String), StoreError>)
    ensures
        match r {
            Ok((p, t)) => p@ == record_path(root@, K::spec_collection_name(), rec.fields().0) && t@
                == document(rec.fields()),
            Err(_) => false,
        },
{
    let text = encode_record(rec)?;
    let p = derive_path::<K>(root, rec.name());
    Ok((p, text))
}

/// The "new" operation up to the write: checks the input and gives the file
/// to write and its text. Input that is rejected yields no file at all.
pub fn new_record_file<K: RecordKind>(
    root: &str,
    name: String,
    owner: String,
    age_text: &str,
) -> (r: Result<(String, String), StoreError>)
    ensures
        !accepts_new(name@, owner@, age_text@) ==> match r {
            Ok(_) => false,
            Err(e) => e == StoreError::InvalidArgument,
        },
        accepts_new(name@, owner@, age_text@) ==> match r {
            Ok((p, t)) => p@ == record_path(root@, K::spec_collection_name(), name@) && t@
                == document(new_fields(name@, owner@, age_text@)),
            Err(_) => false,
        },
{
    let rec = build_record::<K>(name, owner, age_text)?;
    save_plan(root, &rec)
}

} // verus!
