use memo_store::error::MemoError;
use memo_store::record::Record;
use memo_store::store::Store;
use rusqlite::Connection;

fn empty_store() -> Store {
    let conn = Connection::open_in_memory().unwrap();
    conn.execute(
        "CREATE TABLE memos (name TEXT PRIMARY KEY, content TEXT, label TEXT)",
        (),
    )
    .unwrap();
    Store::new(conn).unwrap()
}

fn record(name: &str, content: &str, label: Option<&str>) -> Record {
    Record::new(
        name.to_string(),
        content.to_string(),
        label.map(|l| l.to_string()),
    )
}

fn names(list: &[&str]) -> Vec<String> {
    list.iter().map(|n| n.to_string()).collect()
}

fn store_with(rows: &[(&str, &str, Option<&str>)]) -> Store {
    let mut store = empty_store();
    for (name, content, label) in rows {
        store.insert(&record(name, content, *label)).unwrap();
    }
    store
}

#[test]
fn load_of_an_empty_table_is_empty() {
    let mut store = empty_store();
    assert_eq!(store.load().unwrap(), vec![]);
}

#[test]
fn load_returns_records_in_ascending_order_of_name() {
    let mut store = store_with(&[
        ("pear", "3", None),
        ("apple", "1", Some("fruit")),
        ("zebra", "4", Some("unknown")),
        ("banana", "2", None),
    ]);
    let rows = store.load().unwrap();
    assert_eq!(
        rows,
        vec![
            record("apple", "1", Some("fruit")),
            record("banana", "2", None),
            record("pear", "3", None),
            record("zebra", "4", Some("unknown")),
        ]
    );
}

#[test]
fn load_orders_a_prefix_before_what_extends_it() {
    let mut store = store_with(&[("ab", "", None), ("a", "", None), ("B", "", None), ("", "", None)]);
    let rows = store.load().unwrap();
    let got: Vec<&str> = rows.iter().map(|r| r.name.as_str()).collect();
    assert_eq!(got, vec!["", "B", "a", "ab"]);
}

#[test]
fn insert_refuses_a_name_that_is_taken() {
    let mut store = store_with(&[("a", "first", Some("work"))]);
    let again = store.insert(&record("a", "second", None));
    assert_eq!(again, Err(MemoError::DuplicateName("a".to_string())));
    assert_eq!(store.load().unwrap(), vec![record("a", "first", Some("work"))]);
}

#[test]
fn insert_keeps_an_absent_label_absent() {
    let mut store = store_with(&[("a", "text", None)]);
    assert_eq!(store.load().unwrap()[0].label, None);
}

#[test]
fn kill_removes_the_named_records_and_passes_over_the_rest() {
    let mut store = store_with(&[("a", "1", None), ("b", "2", None), ("c", "3", None)]);
    store.kill(&names(&["a", "c", "missing"])).unwrap();
    assert_eq!(store.load().unwrap(), vec![record("b", "2", None)]);
}

#[test]
fn kill_of_no_names_changes_nothing() {
    let mut store = store_with(&[("a", "1", None)]);
    store.kill(&names(&[])).unwrap();
    assert_eq!(store.load().unwrap(), vec![record("a", "1", None)]);
}

#[test]
fn set_content_replaces_the_content_and_keeps_name_and_label() {
    let mut store = store_with(&[("a", "old", Some("work")), ("b", "other", None)]);
    store.set_content("a", "new").unwrap();
    assert_eq!(
        store.load().unwrap(),
        vec![record("a", "new", Some("work")), record("b", "other", None)]
    );
}

#[test]
fn set_content_of_a_missing_name_is_no_error_and_changes_nothing() {
    let mut store = store_with(&[("a", "old", None)]);
    assert_eq!(store.set_content("nobody", "new"), Ok(()));
    assert_eq!(store.load().unwrap(), vec![record("a", "old", None)]);
}

#[test]
fn select_returns_only_the_named_records_in_order() {
    let mut store = store_with(&[("c", "3", None), ("a", "1", None), ("b", "2", None)]);
    let rows = store.select(&names(&["c", "a", "missing"])).unwrap();
    assert_eq!(rows, vec![record("a", "1", None), record("c", "3", None)]);
}

#[test]
fn merge_joins_names_and_contents_and_takes_the_first_real_label() {
    let mut store = store_with(&[("a", "hello", Some("work")), ("b", "world", Some("unknown"))]);
    store.merge(&names(&["a", "b"])).unwrap();
    assert_eq!(
        store.load().unwrap(),
        vec![record("a,b", "hello\n\nworld", Some("work"))]
    );
}

#[test]
fn merge_takes_the_records_in_order_of_name_whatever_the_order_asked() {
    let mut store = store_with(&[("a", "hello", None), ("b", "world", Some("home"))]);
    store.merge(&names(&["b", "a"])).unwrap();
    assert_eq!(
        store.load().unwrap(),
        vec![record("a,b", "hello\n\nworld", Some("home"))]
    );
}

#[test]
fn merge_without_a_real_label_is_labelled_unknown() {
    let mut store = store_with(&[("a", "x", Some("unknown")), ("b", "y", None)]);
    store.merge(&names(&["a", "b"])).unwrap();
    assert_eq!(
        store.load().unwrap(),
        vec![record("a,b", "x\n\ny", Some("unknown"))]
    );
}

#[test]
fn merge_of_three_leaves_one_record_and_the_others_alone() {
    let mut store = store_with(&[
        ("a", "1", None),
        ("b", "2", None),
        ("c", "3", Some("late")),
        ("d", "4", None),
    ]);
    assert_eq!(store.load().unwrap().len(), 4);
    store.merge(&names(&["a", "b", "c"])).unwrap();
    assert_eq!(
        store.load().unwrap(),
        vec![record("a,b,c", "1\n\n2\n\n3", Some("late")), record("d", "4", None)]
    );
}

#[test]
fn merge_of_no_name_changes_nothing() {
    let mut store = store_with(&[("a", "1", None), ("b", "2", None)]);
    store.merge(&names(&[])).unwrap();
    assert_eq!(
        store.load().unwrap(),
        vec![record("a", "1", None), record("b", "2", None)]
    );
}

#[test]
fn merge_of_one_name_changes_nothing() {
    let mut store = store_with(&[("a", "1", None), ("b", "2", None)]);
    store.merge(&names(&["a"])).unwrap();
    assert_eq!(
        store.load().unwrap(),
        vec![record("a", "1", None), record("b", "2", None)]
    );
}

#[test]
fn merge_of_one_name_given_twice_changes_nothing() {
    let mut store = store_with(&[("a", "1", None), ("b", "2", None)]);
    store.merge(&names(&["a", "a"])).unwrap();
    assert_eq!(
        store.load().unwrap(),
        vec![record("a", "1", None), record("b", "2", None)]
    );
}

#[test]
fn merge_with_a_missing_name_leaves_a_labelled_record_as_it_was() {
    let mut store = store_with(&[("a", "hello", Some("work")), ("b", "world", None)]);
    store.merge(&names(&["a", "nonexistent"])).unwrap();
    assert_eq!(
        store.load().unwrap(),
        vec![record("a", "hello", Some("work")), record("b", "world", None)]
    );
}

#[test]
fn merge_with_a_missing_name_labels_an_unlabelled_record_unknown() {
    let mut store = store_with(&[("a", "hello", None)]);
    store.merge(&names(&["a", "nonexistent"])).unwrap();
    assert_eq!(store.load().unwrap(), vec![record("a", "hello", Some("unknown"))]);
}

#[test]
fn merge_fails_when_the_merged_name_is_taken_and_does_not_put_back() {
    let mut store = store_with(&[("a", "1", None), ("b", "2", None), ("a,b", "3", None)]);
    let r = store.merge(&names(&["a", "b"]));
    assert_eq!(r, Err(MemoError::DuplicateName("a,b".to_string())));
    assert_eq!(store.load().unwrap(), vec![record("a,b", "3", None)]);
}

#[test]
fn a_failing_database_is_reported_as_a_store_error() {
    let conn = Connection::open_in_memory().unwrap();
    let mut store = Store::new(conn).unwrap();
    assert!(matches!(store.load(), Err(MemoError::Store(_))));
    assert!(matches!(store.kill(&names(&["a"])), Err(MemoError::Store(_))));
    assert!(matches!(store.set_content("a", "b"), Err(MemoError::Store(_))));
    assert!(matches!(store.insert(&record("a", "b", None)), Err(MemoError::Store(_))));
    assert!(matches!(store.merge(&names(&["a", "b"])), Err(MemoError::Store(_))));
    assert!(matches!(
        store.add_to_things(&names(&["a"]), true),
        Err(MemoError::Store(_))
    ));
}

#[test]
fn a_store_error_carries_the_text_of_the_database() {
    let conn = Connection::open_in_memory().unwrap();
    let mut store = Store::new(conn).unwrap();
    let e = store.load().unwrap_err();
    assert_eq!(e.message(), "no such table: memos");
}

#[test]
fn names_do_not_repeat_after_inserts_merges_and_deletes() {
    let mut store = store_with(&[("a", "1", None), ("b", "2", None), ("c", "3", None)]);
    let _ = store.insert(&record("b", "again", None));
    store.merge(&names(&["a", "c"])).unwrap();
    let _ = store.insert(&record("a,c", "again", None));
    store.kill(&names(&["b"])).unwrap();
    store.insert(&record("b", "back", None)).unwrap();
    let rows = store.load().unwrap();
    let got: Vec<&str> = rows.iter().map(|r| r.name.as_str()).collect();
    assert_eq!(got, vec!["a,c", "b"]);
}

#[test]
fn export_builds_the_url_and_leaves_the_table_alone() {
    let mut store = store_with(&[("x", "buy milk", Some("l")), ("y", "other", None)]);
    let url = store.add_to_things(&names(&["x"]), true).unwrap();
    assert_eq!(
        url,
        "things:///json?data=%5B%7B%22type%22%3A%22to-do%22%2C%22attributes%22%3A%7B%22title%22%3A%22buy+milk%22%2C%22notes%22%3Anull%7D%7D%5D&reveal=true"
    );
    assert_eq!(
        store.load().unwrap(),
        vec![record("x", "buy milk", Some("l")), record("y", "other", None)]
    );
}

#[test]
fn export_without_the_task_manager_fails_before_the_table_is_read() {
    let conn = Connection::open_in_memory().unwrap();
    let mut store = Store::new(conn).unwrap();
    assert_eq!(
        store.add_to_things(&names(&["x"]), false),
        Err(MemoError::ExternalAppUnavailable)
    );
}

#[test]
fn export_takes_the_records_in_order_of_name() {
    let mut store = store_with(&[("b", "two", None), ("a", "one", None)]);
    let url = store.add_to_things(&names(&["b", "a"]), true).unwrap();
    assert_eq!(
        url,
        "things:///json?data=%5B%7B%22type%22%3A%22to-do%22%2C%22attributes%22%3A%7B%22title%22%3A%22one%22%2C%22notes%22%3Anull%7D%7D%2C%7B%22type%22%3A%22to-do%22%2C%22attributes%22%3A%7B%22title%22%3A%22two%22%2C%22notes%22%3Anull%7D%7D%5D&reveal=true"
    );
}

#[test]
fn export_of_nothing_is_an_empty_array() {
    let mut store = store_with(&[("a", "one", None)]);
    let url = store.add_to_things(&names(&["missing"]), true).unwrap();
    assert_eq!(url, "things:///json?data=%5B%5D&reveal=true");
}

#[test]
fn export_of_more_than_a_url_can_carry_fails_and_leaves_the_table_alone() {
    let long = "a".repeat(memo_store::things3::URL_LIMIT);
    let mut store = store_with(&[("a", long.as_str(), None)]);
    assert_eq!(
        store.add_to_things(&names(&["a"]), true),
        Err(MemoError::InvalidUrl)
    );
    assert_eq!(store.load().unwrap().len(), 1);
}

#[test]
fn the_table_holds_what_the_store_says_it_holds() {
    let mut store = store_with(&[("a", "hello", None), ("b", "world", Some("work"))]);
    store.set_content("b", "there").unwrap();
    let conn = store.into_connection();
    let mut statement = conn
        .prepare("SELECT name, content, label IS NULL, label FROM memos ORDER BY name DESC")
        .unwrap();
    let rows: Vec<(String, String, bool, Option<String>)> = statement
        .query_map((), |row| Ok((row.get(0)?, row.get(1)?, row.get(2)?, row.get(3)?)))
        .unwrap()
        .map(|row| row.unwrap())
        .collect();
    assert_eq!(
        rows,
        vec![
            ("b".to_string(), "there".to_string(), false, Some("work".to_string())),
            ("a".to_string(), "hello".to_string(), true, None),
        ]
    );
}

#[test]
fn names_are_taken_as_they_are_written() {
    let mut store = store_with(&[("a", "lower", None), ("A", "upper", None), ("a ", "space", None)]);
    store.kill(&names(&["a"])).unwrap();
    let rows = store.load().unwrap();
    let got: Vec<&str> = rows.iter().map(|r| r.name.as_str()).collect();
    assert_eq!(got, vec!["A", "a "]);
}

#[test]
fn load_orders_names_by_their_characters() {
    let mut store = store_with(&[
        ("\u{10000}", "", None),
        ("\u{ffff}", "", None),
        ("é", "", None),
        ("z", "", None),
        ("Z", "", None),
    ]);
    let rows = store.load().unwrap();
    let got: Vec<&str> = rows.iter().map(|r| r.name.as_str()).collect();
    assert_eq!(got, vec!["Z", "z", "é", "\u{ffff}", "\u{10000}"]);
}

fn store_on(schema: &str, rows: &[(&str, &str)]) -> Store {
    let conn = Connection::open_in_memory().unwrap();
    conn.execute(schema, ()).unwrap();
    for (name, content) in rows {
        conn.execute(
            "INSERT INTO memos (name, content) VALUES (?1, ?2)",
            [name, content],
        )
        .unwrap();
    }
    Store::new(conn).unwrap()
}

#[test]
fn load_refuses_rows_that_come_back_in_another_order() {
    let mut store = store_on(
        "CREATE TABLE memos (name TEXT PRIMARY KEY COLLATE NOCASE, content TEXT, label TEXT)",
        &[("B", "2"), ("a", "1")],
    );
    assert_eq!(
        store.load(),
        Err(MemoError::Store(
            "The memos did not come back in ascending order of name".to_string()
        ))
    );
}

#[test]
fn load_refuses_a_name_that_comes_back_twice() {
    let mut store = store_on(
        "CREATE TABLE memos (name TEXT, content TEXT, label TEXT)",
        &[("a", "1"), ("a", "2")],
    );
    assert_eq!(
        store.load(),
        Err(MemoError::Store(
            "The memos did not come back in ascending order of name".to_string()
        ))
    );
    assert!(matches!(
        store.merge(&names(&["a", "b"])),
        Err(MemoError::Store(_))
    ));
    let left: i64 = store
        .into_connection()
        .query_row("SELECT count(*) FROM memos", (), |row| row.get(0))
        .unwrap();
    assert_eq!(left, 2);
}

#[test]
fn select_refuses_a_record_that_was_not_asked_for() {
    let mut store = store_on(
        "CREATE TABLE memos (name TEXT PRIMARY KEY COLLATE NOCASE, content TEXT, label TEXT)",
        &[("A", "1")],
    );
    assert_eq!(
        store.select(&names(&["a"])),
        Err(MemoError::Store(
            "A memo came back that was not asked for".to_string()
        ))
    );
    assert!(matches!(
        store.add_to_things(&names(&["a"]), true),
        Err(MemoError::Store(_))
    ));
}

#[test]
fn export_of_a_content_with_an_ampersand_decodes_to_the_array() {
    let mut store = store_with(&[("x", "a&b=c%d+e f", None)]);
    let url = store.add_to_things(&names(&["x"]), true).unwrap();
    let parsed = url::Url::parse(&url).unwrap();
    let pairs: Vec<(String, String)> = parsed
        .query_pairs()
        .map(|(k, v)| (k.into_owned(), v.into_owned()))
        .collect();
    assert_eq!(
        pairs,
        vec![
            (
                "data".to_string(),
                "[{\"type\":\"to-do\",\"attributes\":{\"title\":\"a&b=c%d+e f\",\"notes\":null}}]"
                    .to_string()
            ),
            ("reveal".to_string(), "true".to_string()),
        ]
    );
}
