use simplebluetooth::cursor::StringCursor;

fn three() -> StringCursor {
    StringCursor::new(vec!["a".to_string(), "b".to_string(), "c".to_string()])
}

#[test]
fn cursor_walks_from_front_to_back() {
    let mut c = three();
    assert!(c.has_current());
    assert_eq!(c.current(), Some("a".to_string()));
    assert!(c.move_next());
    assert_eq!(c.current(), Some("b".to_string()));
    assert!(c.move_next());
    assert!(!c.move_next());
    assert!(!c.has_current());
    assert_eq!(c.current(), None);
    assert!(!c.move_next());
    assert_eq!(c.get_many(2), Vec::<String>::new());
}

#[test]
fn empty_cursor_has_nothing() {
    let mut c = StringCursor::new(vec![]);
    assert!(!c.has_current());
    assert_eq!(c.current(), None);
    assert!(!c.move_next());
}

#[test]
fn reading_stops_at_the_capacity_and_at_the_end() {
    let mut c = three();
    assert_eq!(c.get_many(0), Vec::<String>::new());
    assert_eq!(c.get_many(2), vec!["a".to_string(), "b".to_string()]);
    assert_eq!(c.current(), Some("c".to_string()));
    assert_eq!(c.get_many(5), vec!["c".to_string()]);
    assert!(!c.has_current());
}

#[test]
fn reading_in_parts_loses_nothing() {
    let mut c = three();
    let mut all = c.get_many(1);
    all.extend(c.get_many(9));
    assert_eq!(all, three().get_many(10));
}
