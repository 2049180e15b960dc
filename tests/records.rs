use animal_records::{
    build_record, collection_dir, decimal, default_root, derive_path, encode_record, file_stem,
    frame_document, listing_lines, names_from_entries, new_record_file, parse_age, save_plan, Cat,
    Dog, RecordKind, StoreError,
};

fn strings(items: &[&str]) -> Vec<String> {
    items.iter().map(|s| s.to_string()).collect()
}

#[test]
fn dog_path_under_default_root() {
    let dog = Dog::new("Rex".to_string(), "Alice".to_string(), 3);
    assert_eq!(dog.path(), "animals/dogs/Rex.json");
}

#[test]
fn cat_path_under_default_root() {
    let cat = Cat::new("Tom".to_string(), "Bob".to_string(), 5);
    assert_eq!(cat.path(), "animals/cats/Tom.json");
}

#[test]
fn derive_path_with_other_root() {
    assert_eq!(derive_path::<Dog>("data", "Fido"), "data/dogs/Fido.json");
    assert_eq!(derive_path::<Cat>("data", "Fido"), "data/cats/Fido.json");
    assert_eq!(collection_dir::<Dog>(default_root()), "animals/dogs");
    assert_eq!(collection_dir::<Cat>(default_root()), "animals/cats");
}

#[test]
fn kind_names() {
    assert_eq!(Dog::collection_name(), "dogs");
    assert_eq!(Cat::collection_name(), "cats");
    assert_eq!(Dog::file_extension(), "json");
    assert_eq!(Cat::file_extension(), "json");
}

#[test]
fn parse_age_accepts_integers_in_range() {
    assert_eq!(parse_age("0"), Ok(0));
    assert_eq!(parse_age("3"), Ok(3));
    assert_eq!(parse_age("255"), Ok(255));
    assert_eq!(parse_age("+7"), Ok(7));
    assert_eq!(parse_age("007"), Ok(7));
}

#[test]
fn parse_age_rejects_other_text() {
    for text in ["abc", "", "+", "-1", "256", "1000", "3 ", " 3", "1a", "++1", "٣"] {
        assert_eq!(parse_age(text), Err(StoreError::InvalidArgument), "{text:?}");
    }
}

#[test]
fn decimal_digits() {
    assert_eq!(decimal(0), "0");
    assert_eq!(decimal(9), "9");
    assert_eq!(decimal(10), "10");
    assert_eq!(decimal(42), "42");
    assert_eq!(decimal(203), "203");
    assert_eq!(decimal(255), "255");
}

#[test]
fn frame_puts_fields_in_order() {
    assert_eq!(
        frame_document("\"Rex\"", "\"Alice\"", 3),
        "{\"name\":\"Rex\",\"owner\":\"Alice\",\"age\":3}"
    );
}

#[test]
fn encode_dog_document() {
    let dog = Dog::new("Rex".to_string(), "Alice".to_string(), 3);
    assert_eq!(
        encode_record(&dog),
        Ok("{\"name\":\"Rex\",\"owner\":\"Alice\",\"age\":3}".to_string())
    );
}

#[test]
fn encode_escapes_strings() {
    let cat = Cat::new("Mr \"Tom\"".to_string(), "a\\b\n".to_string(), 255);
    assert_eq!(
        encode_record(&cat),
        Ok("{\"name\":\"Mr \\\"Tom\\\"\",\"owner\":\"a\\\\b\\n\",\"age\":255}".to_string())
    );
}

#[test]
fn file_stem_cases() {
    assert_eq!(file_stem("Rex.json"), "Rex");
    assert_eq!(file_stem("a.b.json"), "a.b");
    assert_eq!(file_stem(".hidden"), ".hidden");
    assert_eq!(file_stem(".x.json"), ".x");
    assert_eq!(file_stem("noext"), "noext");
    assert_eq!(file_stem("x."), "x");
    assert_eq!(file_stem(".."), "..");
    assert_eq!(file_stem("..json"), ".");
}

#[test]
fn listing_recovers_saved_names() {
    let mut names = names_from_entries(&strings(&["Rex.json", "Fido.json"]));
    names.sort();
    assert_eq!(names, strings(&["Fido", "Rex"]));
    assert_ne!(collection_dir::<Dog>("animals"), collection_dir::<Cat>("animals"));
}

#[test]
fn listing_keeps_entry_order() {
    let names = names_from_entries(&strings(&["b.json", "a.json", "c.json"]));
    assert_eq!(names, strings(&["b", "a", "c"]));
}

#[test]
fn empty_collection_lists_nothing() {
    assert_eq!(names_from_entries(&Vec::new()), Vec::<String>::new());
    assert_eq!(listing_lines::<Dog>(Vec::new()), strings(&["No dogs found"]));
    assert_eq!(listing_lines::<Cat>(Vec::new()), strings(&["No cats found"]));
}

#[test]
fn listing_lines_show_names() {
    assert_eq!(listing_lines::<Dog>(strings(&["Rex", "Fido"])), strings(&["Rex", "Fido"]));
}

#[test]
fn invalid_age_writes_nothing() {
    let r = new_record_file::<Dog>("animals", "Rex".to_string(), "Alice".to_string(), "abc");
    assert_eq!(r, Err(StoreError::InvalidArgument));
}

#[test]
fn empty_name_is_rejected() {
    let r = new_record_file::<Cat>("animals", String::new(), "Alice".to_string(), "3");
    assert_eq!(r, Err(StoreError::InvalidArgument));
    assert!(build_record::<Dog>(String::new(), "A".to_string(), "1").is_err());
}

#[test]
fn empty_owner_is_rejected() {
    let r = new_record_file::<Dog>("animals", "Rex".to_string(), String::new(), "3");
    assert_eq!(r, Err(StoreError::InvalidArgument));
    assert!(build_record::<Cat>("Tom".to_string(), String::new(), "12").is_err());
}

#[test]
fn encode_uses_every_escape_form() {
    let dog = Dog::new("\u{8}\t\n\u{c}\r".to_string(), "\u{1}\u{1f}\u{7f}/é".to_string(), 1);
    assert_eq!(
        encode_record(&dog),
        Ok("{\"name\":\"\\b\\t\\n\\f\\r\",\"owner\":\"\\u0001\\u001f\u{7f}/é\",\"age\":1}"
            .to_string())
    );
}

#[test]
fn build_record_keeps_fields() {
    let dog: Dog = build_record("Rex".to_string(), "Alice".to_string(), "+3").unwrap();
    assert_eq!(dog.name, "Rex");
    assert_eq!(dog.owner, "Alice");
    assert_eq!(dog.age, 3);
    let cat: Cat = build_record("Tom".to_string(), "Bo".to_string(), "12").unwrap();
    assert_eq!((cat.name(), cat.owner(), cat.age()), ("Tom", "Bo", 12));
}

#[test]
fn overwrite_targets_the_same_file() {
    let first = Dog::new("Rex".to_string(), "Alice".to_string(), 3);
    let second = Dog::new("Rex".to_string(), "Bob".to_string(), 4);
    let (p1, _) = save_plan("animals", &first).unwrap();
    let (p2, t2) = save_plan("animals", &second).unwrap();
    assert_eq!(p1, p2);
    assert_eq!(t2, "{\"name\":\"Rex\",\"owner\":\"Bob\",\"age\":4}");
    let other = Dog::new("Fido".to_string(), "Alice".to_string(), 3);
    assert_ne!(save_plan("animals", &other).unwrap().0, p1);
}

#[test]
fn new_then_show_then_list() {
    let (path, text) =
        new_record_file::<Dog>("animals", "Rex".to_string(), "Alice".to_string(), "3").unwrap();
    assert_eq!(path, "animals/dogs/Rex.json");
    assert_eq!(text, "{\"name\":\"Rex\",\"owner\":\"Alice\",\"age\":3}");
    let shown = Dog::from_fields("Rex".to_string(), "Alice".to_string(), 3);
    assert_eq!((shown.name(), shown.owner(), shown.age()), ("Rex", "Alice", 3));
    let file_name = path.rsplit('/').next().unwrap().to_string();
    let lines = listing_lines::<Dog>(names_from_entries(&vec![file_name]));
    assert_eq!(lines, strings(&["Rex"]));
}

#[test]
fn document_reads_back_as_the_record() {
    for (name, owner, age) in [("Rex", "Alice", 3u8), ("Mr \"Tom\"", "a\\b\n\u{1}é", 255), ("x", "y", 0)] {
        let dog = Dog::new(name.to_string(), owner.to_string(), age);
        let text = encode_record(&dog).unwrap();
        let value: serde_json::Value = serde_json::from_str(&text).unwrap();
        assert_eq!(value["name"].as_str(), Some(name));
        assert_eq!(value["owner"].as_str(), Some(owner));
        assert_eq!(value["age"].as_u64(), Some(age as u64));
        assert_eq!(value.as_object().unwrap().len(), 3);
    }
}
