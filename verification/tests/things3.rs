use memo_store::record::Record;
use memo_store::error::MemoError;
use memo_store::things3::{
    check_installed, encode_items, export_url, json_array, things_url, to_items, todo_object,
    Item, Todo, URL_LIMIT,
};

fn todo(title: &str, notes: Option<&str>) -> Item {
    Item::Todo(Todo {
        title: title.to_string(),
        notes: notes.map(|n| n.to_string()),
    })
}

#[test]
fn a_todo_object_has_its_tag_and_its_attributes() {
    assert_eq!(
        todo_object("\"buy milk\"", None),
        "{\"type\":\"to-do\",\"attributes\":{\"title\":\"buy milk\",\"notes\":null}}"
    );
    assert_eq!(
        todo_object("\"t\"", Some("\"n\"")),
        "{\"type\":\"to-do\",\"attributes\":{\"title\":\"t\",\"notes\":\"n\"}}"
    );
}

#[test]
fn a_json_array_separates_its_values_by_commas() {
    assert_eq!(json_array(&vec![]), "[]");
    assert_eq!(json_array(&vec!["1".to_string()]), "[1]");
    assert_eq!(
        json_array(&vec!["1".to_string(), "{}".to_string(), "null".to_string()]),
        "[1,{},null]"
    );
}

#[test]
fn serialize_writes_the_wire_shape() {
    assert_eq!(
        todo("buy milk", None).serialize(),
        "{\"type\":\"to-do\",\"attributes\":{\"title\":\"buy milk\",\"notes\":null}}"
    );
}

#[test]
fn serialize_escapes_what_json_cannot_hold_as_it_is() {
    assert_eq!(
        todo("say \"hi\"\\ \n\tnow\u{1}", Some("é")).serialize(),
        "{\"type\":\"to-do\",\"attributes\":{\"title\":\"say \\\"hi\\\"\\\\ \\n\\tnow\\u0001\",\"notes\":\"é\"}}"
    );
}

#[test]
fn serialize_is_read_back_by_a_json_parser() {
    let text = todo("line one\nline \"two\"", None).serialize();
    let value: serde_json::Value = serde_json::from_str(&text).unwrap();
    assert_eq!(value["type"], "to-do");
    assert_eq!(value["attributes"]["title"], "line one\nline \"two\"");
    assert!(value["attributes"]["notes"].is_null());
    assert_eq!(value.as_object().unwrap().len(), 2);
    assert_eq!(value["attributes"].as_object().unwrap().len(), 2);
}

#[test]
fn a_record_becomes_a_todo_titled_by_its_content() {
    let rows = vec![Record::new(
        "x".to_string(),
        "buy milk".to_string(),
        Some("l".to_string()),
    )];
    let items = to_items(&rows);
    assert_eq!(items, vec![todo("buy milk", None)]);
}

#[test]
fn the_payload_of_a_record_holds_neither_its_name_nor_its_label() {
    let rows = vec![Record::new(
        "memo-name".to_string(),
        "buy milk".to_string(),
        Some("memo-label".to_string()),
    )];
    let payload = encode_items(&to_items(&rows));
    assert_eq!(
        payload,
        "[{\"type\":\"to-do\",\"attributes\":{\"title\":\"buy milk\",\"notes\":null}}]"
    );
    assert!(!payload.contains("memo-name"));
    assert!(!payload.contains("memo-label"));
    let value: serde_json::Value = serde_json::from_str(&payload).unwrap();
    let array = value.as_array().unwrap();
    assert_eq!(array.len(), 1);
    assert_eq!(array[0]["attributes"]["title"], "buy milk");
    assert!(array[0]["attributes"]["notes"].is_null());
}

#[test]
fn encode_items_keeps_the_order_of_the_items() {
    let items = vec![todo("one", None), todo("two", None), todo("three", None)];
    assert_eq!(
        encode_items(&items),
        "[{\"type\":\"to-do\",\"attributes\":{\"title\":\"one\",\"notes\":null}},{\"type\":\"to-do\",\"attributes\":{\"title\":\"two\",\"notes\":null}},{\"type\":\"to-do\",\"attributes\":{\"title\":\"three\",\"notes\":null}}]"
    );
}

#[test]
fn encode_items_of_no_item_is_an_empty_array() {
    assert_eq!(encode_items(&vec![]), "[]");
}

#[test]
fn the_url_carries_the_payload_and_asks_to_reveal() {
    assert_eq!(
        things_url("[]"),
        Some("things:///json?data=%5B%5D&reveal=true".to_string())
    );
}

#[test]
fn the_url_encodes_all_but_letters_digits_and_a_few_signs() {
    assert_eq!(
        things_url("[\"a b\",\"é\",\"<#>\"]"),
        Some(
            "things:///json?data=%5B%22a+b%22%2C%22%C3%A9%22%2C%22%3C%23%3E%22%5D&reveal=true"
                .to_string()
        )
    );
    assert_eq!(
        things_url("a&b=c%d+e*-._~"),
        Some("things:///json?data=a%26b%3Dc%25d%2Be*-._%7E&reveal=true".to_string())
    );
}

#[test]
fn the_payload_is_read_back_from_the_url() {
    let payload = "[{\"title\":\"a&b=c%d+e f#g\\n\"}]";
    let url = url::Url::parse(&things_url(payload).unwrap()).unwrap();
    let pairs: Vec<(String, String)> = url
        .query_pairs()
        .map(|(k, v)| (k.into_owned(), v.into_owned()))
        .collect();
    assert_eq!(
        pairs,
        vec![
            ("data".to_string(), payload.to_string()),
            ("reveal".to_string(), "true".to_string())
        ]
    );
    assert_eq!(url.scheme(), "things");
    assert_eq!(url.path(), "/json");
}

#[test]
fn an_export_is_refused_where_things_is_not_installed() {
    assert_eq!(check_installed(true), Ok(()));
    assert_eq!(check_installed(false), Err(MemoError::ExternalAppUnavailable));
}

#[test]
fn the_export_url_of_records_carries_their_contents_in_order() {
    let rows = vec![
        Record::new("b".to_string(), "two".to_string(), Some("l".to_string())),
        Record::new("a".to_string(), "one".to_string(), None),
    ];
    assert_eq!(
        export_url(&rows),
        Ok("things:///json?data=%5B%7B%22type%22%3A%22to-do%22%2C%22attributes%22%3A%7B%22title%22%3A%22two%22%2C%22notes%22%3Anull%7D%7D%2C%7B%22type%22%3A%22to-do%22%2C%22attributes%22%3A%7B%22title%22%3A%22one%22%2C%22notes%22%3Anull%7D%7D%5D&reveal=true".to_string())
    );
    let long = vec![Record::new("a".to_string(), "a".repeat(URL_LIMIT), None)];
    assert_eq!(export_url(&long), Err(MemoError::InvalidUrl));
}

#[test]
fn a_url_up_to_the_limit_is_built_and_one_past_it_is_not() {
    let prefix = "things:///json?data=".len();
    let fits = "a".repeat(URL_LIMIT - prefix);
    let url = things_url(&fits).unwrap();
    assert_eq!(url.len(), URL_LIMIT + "&reveal=true".len());
    let too_long = "a".repeat(URL_LIMIT - prefix + 1);
    assert_eq!(things_url(&too_long), None);
}
