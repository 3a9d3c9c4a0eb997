use wire_handshake::document::{Bson, Document};

#[test]
fn new_document_is_empty() {
    let document = Document::new();
    assert_eq!(document.len(), 0);
    assert!(document.is_empty());
    assert!(!document.contains_key("a"));
    assert_eq!(document.get("a"), None);
    assert_eq!(document.keys(), Vec::<String>::new());
}

#[test]
fn insert_files_new_keys_at_the_end() {
    let mut document = Document::new();
    assert_eq!(document.insert("b".to_string(), Bson::Int32(1)), None);
    assert_eq!(document.insert("a".to_string(), Bson::Boolean(true)), None);
    assert_eq!(document.insert("c".to_string(), Bson::String("x".to_string())), None);
    assert_eq!(document.keys(), vec!["b", "a", "c"]);
    assert_eq!(document.len(), 3);
    assert!(!document.is_empty());
    assert_eq!(document.get("b"), Some(&Bson::Int32(1)));
    assert_eq!(document.get("a"), Some(&Bson::Boolean(true)));
    assert_eq!(document.get("c"), Some(&Bson::String("x".to_string())));
    assert_eq!(document.get("d"), None);
}

#[test]
fn insert_replaces_in_place_and_returns_the_old_value() {
    let mut document = Document::new();
    document.insert("b".to_string(), Bson::Int32(1));
    document.insert("a".to_string(), Bson::Int32(2));
    let previous = document.insert("b".to_string(), Bson::Int64(3));
    assert_eq!(previous, Some(Bson::Int32(1)));
    assert_eq!(document.keys(), vec!["b", "a"]);
    assert_eq!(document.len(), 2);
    assert_eq!(document.get("b"), Some(&Bson::Int64(3)));
    assert_eq!(document.get("a"), Some(&Bson::Int32(2)));
}

#[test]
fn keys_are_compared_whole() {
    let mut document = Document::new();
    document.insert("name".to_string(), Bson::Int32(1));
    assert!(document.contains_key("name"));
    assert!(!document.contains_key("nam"));
    assert!(!document.contains_key("names"));
    assert!(!document.contains_key("Name"));
    assert!(!document.contains_key(""));
    document.insert("".to_string(), Bson::Int32(2));
    assert!(document.contains_key(""));
    assert_eq!(document.get(""), Some(&Bson::Int32(2)));
}

#[test]
fn clone_copies_nested_documents() {
    let mut inner = Document::new();
    inner.insert("k".to_string(), Bson::String("v".to_string()));
    let mut outer = Document::new();
    outer.insert("inner".to_string(), Bson::Document(inner.clone()));
    outer.insert("n".to_string(), Bson::Int64(-7));
    let copy = outer.clone();
    assert_eq!(copy, outer);
    assert_eq!(copy.keys(), vec!["inner", "n"]);
    assert_eq!(copy.get("inner"), Some(&Bson::Document(inner)));
    let mut changed = copy.clone();
    changed.insert("n".to_string(), Bson::Int64(8));
    assert_eq!(outer.get("n"), Some(&Bson::Int64(-7)));
    assert_eq!(changed.get("n"), Some(&Bson::Int64(8)));
    assert_ne!(changed, outer);
}

#[test]
fn values_clone_to_equal_values() {
    let values = vec![
        Bson::String("text".to_string()),
        Bson::Boolean(false),
        Bson::Int32(i32::MIN),
        Bson::Int64(i64::MAX),
        Bson::Document(Document::new()),
    ];
    for value in &values {
        assert_eq!(&value.clone(), value);
    }
}
