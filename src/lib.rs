//! A small store of typed animal records (dogs and cats), one JSON file per
//! record under a per-kind collection directory.
//!
//! The library holds the record model, the path convention, the file format,
//! the validation of user input and the reading of directory listings. Reading
//! and writing the files is left to the caller.

mod age;
mod codec;
mod error;
mod listing;
mod path;
mod record;
mod store;

pub use age::{age_digits, decimal_value, digit_value, is_age_text, is_digit, parse_age};
pub use codec::{
    decimal, decimal_text, digit_char, document, encode_record, escaped, escaped_char, frame,
    frame_document, hex_digit, json_string,
};
pub use error::StoreError;
pub use listing::{
    empty_message, file_stem, last_dot_before, lemma_listing_complete, lemma_stem_of_file_name, listing_lines,
    names_from_entries, stem_of,
};
pub use path::{
    collection_dir, default_root, derive_path, dir_path, extension, file_name_of,
    lemma_collections_apart, lemma_path_identifies_name, record_path, spec_default_root,
};
pub use record::{Cat, Dog, RecordFields, RecordKind};
pub use store::{accepts_new, build_record, new_fields, new_record_file, save_plan};
