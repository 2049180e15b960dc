use vstd::prelude::*;
use vstd::string::{StrSliceExecFns, StringExecFns};

use crate::error::StoreError;
use crate::record::{RecordFields, RecordKind};

verus! {

#[verifier::external_type_specification]
#[verifier::external_body]
pub struct ExJsonError(serde_json::Error);

pub open spec fn hex_digit(d: nat) -> char {
    seq!['0', '1', '2', '3', '4', '5', '6', '7', '8', '9', 'a', 'b', 'c', 'd', 'e', 'f'][d as int]
}

/// How one character stands inside a JSON string literal: `"` and `\` and
/// the control characters below U+0020 are escaped, the short forms where
/// JSON has one, `\u00XX` with lower-case hex digits for the rest.
pub open spec fn escaped_char(c: char) -> Seq<char> {
    if c == '"' {
        seq!['\\', '"']
    } else if c == '\\' {
        seq!['\\', '\\']
    } else if c == '\u{8}' {
        seq!['\\', 'b']
    } else if c == '\t' {
        seq!['\\', 't']
    } else if c == '\n' {
        seq!['\\', 'n']
    } else if c == '\u{c}' {
        seq!['\\', 'f']
    } else if c == '\r' {
        seq!['\\', 'r']
    } else if (c as nat) < 0x20 {
        seq!['\\', 'u', '0', '0', hex_digit(c as nat / 16), hex_digit(c as nat % 16)]
    } else {
        seq![c]
    }
}

/// The characters of `s`, each escaped as JSON wants it.
pub open spec fn escaped(s: Seq<char>) -> Seq<char>
    decreases s.len(),
{
    if s.len() == 0 {
        Seq::empty()
    } else {
        escaped(s.drop_last()) + escaped_char(s.last())
    }
}

/// The JSON string literal that stands for `s`, quotes included.
pub open spec fn json_string(s: Seq<char>) -> Seq<char> {
    seq!['"'] + escaped(s) + seq!['"']
}

/// Relies on `serde_json::to_string` applied to a `str`: it writes the string
/// into a `Vec`, which cannot fail, as a JSON string literal with the escapes
/// of `escaped_char`.
#[verifier::external_body]
fn quote_json(s: &str) -> (r: Result<String, serde_json::Error>)
    ensures
        match r {
            Ok(q) => q@ == json_string(s@),
            Err(_) => false,
        },
{
    serde_json::to_string(s)
}

pub open spec fn digit_char(d: nat) -> char {
    seq!['0', '1', '2', '3', '4', '5', '6', '7', '8', '9'][d as int]
}

/// The decimal digits of `n`, without leading zeros.
pub open spec fn decimal_text(n: nat) -> Seq<char>
    decreases n,
{
    if n < 10 {
        seq![digit_char(n)]
    } else {
        decimal_text(n / 10) + seq![digit_char(n % 10)]
    }
}

/// The text of a record file, given its two strings already quoted:
/// `{"name":<name>,"owner":<owner>,"age":<age>}`.
pub open spec fn frame(quoted_name: Seq<char>, quoted_owner: Seq<char>, age: u8) -> Seq<char> {
    seq!['{', '"', 'n', 'a', 'm', 'e', '"', ':'] + quoted_name + seq![
        ',',
        '"',
        'o',
        'w',
        'n',
        'e',
        'r',
        '"',
        ':',
    ] + quoted_owner + seq![',', '"', 'a', 'g', 'e', '"', ':'] + decimal_text(age as nat) + seq![
        '}',
    ]
}

/// The text of the file that stores a record with the given fields.
pub open spec fn document(f: RecordFields) -> Seq<char> {
    frame(json_string(f.0), json_string(f.1), f.2)
}

fn digit_str(d: u8) -> (r: &'static str)
    requires
        d < 10,
    ensures
        r@ == seq![digit_char(d as nat)],
{
    let digits = "0123456789";
    proof {
        reveal_strlit("0123456789");
    }
    let r = digits.substring_char(d as usize, d as usize + 1);
    assert(r@ =~= seq![digit_char(d as nat)]);
    r
}

/// Writes `n` in decimal.
pub fn decimal(n: u8) -> (r: String)
    ensures
        r@ == decimal_text(n as nat),
{
    let mut r = String::new();
    if n >= 100 {
        r.append(digit_str(n / 100));
    }
    if n >= 10 {
        r.append(digit_str((n / 10) % 10));
    }
    r.append(digit_str(n % 10));
    proof {
        let m = n as nat;
        if m >= 100 {
            assert(decimal_text(m / 100) == seq![digit_char(m / 100)]);
            assert((m / 10) / 10 == m / 100);
            assert(decimal_text(m / 10) == decimal_text(m / 100) + seq![digit_char((m / 10) % 10)]);
        } else if m >= 10 {
            assert(decimal_text(m / 10) == seq![digit_char(m / 10)]);
        }
        assert(r@ =~= decimal_text(m));
    }
    r
}

/// Puts the quoted name and owner and the age together into the text of a
/// record file.
pub fn frame_document(quoted_name: &str, quoted_owner: &str, age: u8) -> (r: String)
    ensures
        r@ == frame(quoted_name@, quoted_owner@, age),
{
    proof {
        reveal_strlit("{\"name\":");
        reveal_strlit(",\"owner\":");
        reveal_strlit(",\"age\":");
        reveal_strlit("}");
    }
    let mut r = String::from_str("{\"name\":");
    r.append(quoted_name);
    r.append(",\"owner\":");
    r.append(quoted_owner);
    r.append(",\"age\":");
    let digits = decimal(age);
    r.append(digits.as_str());
    r.append("}");
    proof {
        assert(r@ =~= frame(quoted_name@, quoted_owner@, age));
    }
    r
}

/// The text of the file that stores `rec`. Every record of the fixed schema
/// can be encoded, so this never fails; a failure would be reported as
/// `StoreError::Serialization`.
pub fn encode_record<K: RecordKind>(rec: &K) -> (r: Result<String, StoreError>)
    ensures
        match r {
            Ok(t) => t@ == document(rec.fields()),
            Err(_) => false,
        },
{
    let quoted_name = match quote_json(rec.name()) {
        Ok(q) => q,
        Err(_) => {
            return Err(StoreError::Serialization);
        },
    };
    let quoted_owner = match quote_json(rec.owner()) {
        Ok(q) => q,
        Err(_) => {
            return Err(StoreError::Serialization);
        },
    };
    Ok(frame_document(quoted_name.as_str(), quoted_owner.as_str(), rec.age()))
}

} // verus!
