use scope_chain::{EventType, Type, TypeStruct};

#[test]
fn comment_gives_its_text_back() {
    let e = EventType::Comment(String::from("// a note"));
    match e {
        EventType::Comment(text) => assert_eq!(text, "// a note"),
        _ => panic!("not a comment"),
    }
}

#[test]
fn file_comment_gives_its_text_back() {
    let e = EventType::FileComment(String::from("//! about the file"));
    match e {
        EventType::FileComment(text) => assert_eq!(text, "//! about the file"),
        _ => panic!("not a file comment"),
    }
}

#[test]
fn declaration_gives_its_node_back() {
    let mut n = TypeStruct::new(Type::Fn, "run");
    n.args.push(String::from("()"));
    n.parent = Some(Box::new(TypeStruct::new(Type::Impl, "Foo")));
    let e = EventType::Type(n.clone());
    match e {
        EventType::Type(got) => {
            assert!(got == n);
            assert_eq!(got.to_string(), "impl Foo§fn run()");
        }
        _ => panic!("not a declaration"),
    }
}

#[test]
fn scope_markers_stay_what_they_are() {
    assert!(matches!(EventType::InScope, EventType::InScope));
    assert!(matches!(EventType::OutScope, EventType::OutScope));
    assert!(!matches!(EventType::InScope, EventType::OutScope));
    assert!(!matches!(EventType::OutScope, EventType::InScope));
}

#[test]
fn comment_and_file_comment_are_told_apart() {
    let text = String::from("same");
    assert!(!matches!(EventType::Comment(text.clone()), EventType::FileComment(_)));
    assert!(!matches!(EventType::FileComment(text), EventType::Comment(_)));
}

#[test]
fn debug_string_of_a_declaration_is_its_path_on_a_line() {
    let mut n = TypeStruct::new(Type::Fn, "run");
    n.parent = Some(Box::new(TypeStruct::new(Type::Macro, "gen")));
    assert_eq!(EventType::Type(n).debug_string(), "fn run\n");
    assert_eq!(EventType::Type(TypeStruct::empty()).debug_string(), "? \n");
}

#[test]
fn debug_string_of_other_events_is_empty() {
    assert_eq!(EventType::Comment(String::from("c")).debug_string(), "");
    assert_eq!(EventType::FileComment(String::from("c")).debug_string(), "");
    assert_eq!(EventType::InScope.debug_string(), "");
    assert_eq!(EventType::OutScope.debug_string(), "");
}
