use scope_chain::text::{append_joined, same_text};

#[test]
fn same_text_compares_whole_strings() {
    assert!(same_text("", ""));
    assert!(same_text("struct", "struct"));
    assert!(!same_text("struct", "static"));
    assert!(!same_text("struct", "struc"));
    assert!(!same_text("struc", "struct"));
    assert!(!same_text("", " "));
    assert!(!same_text("Mod", "mod"));
}

#[test]
fn same_text_compares_text_beyond_ascii() {
    assert!(same_text("a\u{00a7}b", "a\u{00a7}b"));
    assert!(!same_text("a\u{00a7}b", "a\u{00a8}b"));
    assert!(!same_text("\u{00e9}", "e"));
}

#[test]
fn append_joined_of_nothing_appends_nothing() {
    let mut buf = String::from("x");
    append_joined(&mut buf, &Vec::new());
    assert_eq!(buf, "x");
}

#[test]
fn append_joined_of_one_item_appends_it_alone() {
    let mut buf = String::from("x");
    append_joined(&mut buf, &vec![String::from("<T>")]);
    assert_eq!(buf, "x<T>");
}

#[test]
fn append_joined_puts_one_space_between_items() {
    let mut buf = String::new();
    let items = vec![String::from("<T>"), String::from("where"), String::from("T: Copy")];
    append_joined(&mut buf, &items);
    assert_eq!(buf, "<T> where T: Copy");
}

#[test]
fn append_joined_keeps_empty_items() {
    let mut buf = String::from("[");
    let items = vec![String::new(), String::from("a"), String::new()];
    append_joined(&mut buf, &items);
    assert_eq!(buf, "[ a ");
}
