use ornery_bot::client_data::guild_data::{id_column, names_id, save_outcome, GuildData};
use ornery_bot::client_data::{ClientData, GuildId};
use ornery_bot::decimal::decimal_string;
use ornery_bot::dumb_error::DumbError;

fn strings(items: &[&str]) -> Vec<String> {
    items.iter().map(|item| item.to_string()).collect()
}

fn sample() -> GuildData {
    let mut record = GuildData::empty(GuildId(42));
    record.count = 9;
    record.whois_url = Some("https://example.com/users.csv".to_string());
    record.whois_headers = strings(&["Name", "User ID"]);
    record.whois_data = vec![strings(&["Alice", "111"]), strings(&["Bob", "222"])];
    record.add_webtoon("weakhero".to_string(), "https://www.webtoons.com/en/x".to_string());
    record
}

fn assert_same_fields(left: &GuildData, right: &GuildData) {
    assert_eq!(left.id, right.id);
    assert_eq!(left.count, right.count);
    assert_eq!(left.whois_url, right.whois_url);
    assert_eq!(left.whois_headers, right.whois_headers);
    assert_eq!(left.whois_data, right.whois_data);
    assert_eq!(left.webtoons.entries(), right.webtoons.entries());
}

#[test]
fn load_of_an_unseen_guild_gives_the_empty_record() {
    let record = GuildData::from_file(GuildId(7), None);
    assert_eq!(record.id, GuildId(7));
    assert_eq!(record.count, 0);
    assert_eq!(record.whois_url, None);
    assert!(record.whois_headers.is_empty());
    assert!(record.whois_data.is_empty());
    assert_eq!(record.webtoons.len(), 0);
    assert_eq!(record.json.value(), &serde_json::Value::Null);
}

#[test]
fn load_of_bytes_that_are_no_document_gives_the_empty_record() {
    for bytes in [&b"not json"[..], &b""[..], &b"{\"count\": 3"[..], &[0xff, 0xfe][..]] {
        let record = GuildData::from_file(GuildId(8), Some(bytes));
        assert_eq!(record.id, GuildId(8));
        assert_eq!(record.count, 0);
        assert_eq!(record.whois_url, None);
        assert!(record.whois_headers.is_empty());
        assert!(record.whois_data.is_empty());
        assert_eq!(record.webtoons.len(), 0);
    }
}

#[test]
fn load_of_a_document_that_is_no_object_gives_the_empty_record() {
    for text in ["[1, 2]", "3", "\"count\"", "null", "true"] {
        let record = GuildData::from_file(GuildId(9), Some(text.as_bytes()));
        assert_eq!(record.count, 0);
        assert_eq!(record.whois_url, None);
        assert!(record.whois_headers.is_empty());
        assert!(record.whois_data.is_empty());
        assert_eq!(record.webtoons.len(), 0);
    }
}

#[test]
fn load_reads_every_field() {
    let text = r#"{
        "count": 12,
        "whois_url": "http://x/y.csv",
        "whois_headers": ["Name", "ID"],
        "whois_data": [["Alice", "1"], ["Bob", "2"]],
        "webtoons": {"foo": "http://x", "bar": "http://y"}
    }"#;
    let record = GuildData::from_file(GuildId(5), Some(text.as_bytes()));
    assert_eq!(record.id, GuildId(5));
    assert_eq!(record.count, 12);
    assert_eq!(record.whois_url, Some("http://x/y.csv".to_string()));
    assert_eq!(record.whois_headers, strings(&["Name", "ID"]));
    assert_eq!(record.whois_data, vec![strings(&["Alice", "1"]), strings(&["Bob", "2"])]);
    assert_eq!(record.webtoons.len(), 2);
    assert_eq!(record.webtoons.get("foo"), Some(&"http://x".to_string()));
    assert_eq!(record.webtoons.get("bar"), Some(&"http://y".to_string()));
    assert_eq!(record.json.value(), &serde_json::Value::Null);
}

#[test]
fn load_fills_in_each_field_that_is_missing_or_of_another_kind() {
    let text = r#"{
        "count": -3,
        "whois_url": 17,
        "whois_headers": {"a": "b"},
        "whois_data": "rows",
        "webtoons": ["foo"]
    }"#;
    let record = GuildData::from_file(GuildId(5), Some(text.as_bytes()));
    assert_eq!(record.count, 0);
    assert_eq!(record.whois_url, None);
    assert!(record.whois_headers.is_empty());
    assert!(record.whois_data.is_empty());
    assert_eq!(record.webtoons.len(), 0);

    let partly = GuildData::from_file(GuildId(5), Some(br#"{"count": 4}"#));
    assert_eq!(partly.count, 4);
    assert_eq!(partly.whois_url, None);
    assert!(partly.whois_headers.is_empty());

    let fraction = GuildData::from_file(GuildId(5), Some(br#"{"count": 4.5}"#));
    assert_eq!(fraction.count, 0);

    let largest = GuildData::from_file(GuildId(5), Some(br#"{"count": 18446744073709551615}"#));
    assert_eq!(largest.count, u64::MAX);

    let too_large = GuildData::from_file(GuildId(5), Some(br#"{"count": 18446744073709551616}"#));
    assert_eq!(too_large.count, 0);
}

#[test]
fn load_leaves_out_what_is_no_string() {
    let text = r#"{
        "whois_headers": ["Name", 3, null, "ID"],
        "whois_data": [["Alice", 1, "x"], "row", [], [["deep"]], ["Bob"]],
        "webtoons": {"foo": "http://x", "bar": 3, "baz": null}
    }"#;
    let record = GuildData::from_file(GuildId(5), Some(text.as_bytes()));
    assert_eq!(record.whois_headers, strings(&["Name", "ID"]));
    assert_eq!(
        record.whois_data,
        vec![strings(&["Alice", "x"]), strings(&[]), strings(&[]), strings(&["Bob"])]
    );
    assert_eq!(record.webtoons.len(), 1);
    assert_eq!(record.webtoons.get("foo"), Some(&"http://x".to_string()));
    assert!(!record.webtoons.contains_key("bar"));
}

#[test]
fn save_then_load_gives_the_fields_back() {
    let mut record = sample();
    let bytes = record.save().unwrap();
    let loaded = GuildData::from_file(GuildId(42), Some(&bytes));
    assert_same_fields(&loaded, &sample());
    assert_same_fields(&record, &sample());
}

#[test]
fn save_then_load_of_the_empty_record_gives_the_empty_record() {
    let mut record = GuildData::empty(GuildId(1));
    let bytes = record.save().unwrap();
    let loaded = GuildData::from_file(GuildId(1), Some(&bytes));
    assert_same_fields(&loaded, &GuildData::empty(GuildId(1)));
    let document: serde_json::Value = serde_json::from_slice(&bytes).unwrap();
    assert_eq!(document["count"], serde_json::Value::from(0u64));
    assert_eq!(document["whois_url"], serde_json::Value::Null);
    assert_eq!(document["whois_headers"], serde_json::Value::Array(vec![]));
    assert_eq!(document["whois_data"], serde_json::Value::Array(vec![]));
    assert_eq!(document["webtoons"], serde_json::Value::Object(serde_json::Map::new()));
    assert_eq!(document.as_object().unwrap().len(), 5);
}

#[test]
fn save_writes_each_field_under_its_name() {
    let mut record = sample();
    let bytes = record.save().unwrap();
    let document: serde_json::Value = serde_json::from_slice(&bytes).unwrap();
    let expected: serde_json::Value = serde_json::from_str(
        r#"{
            "count": 9,
            "whois_url": "https://example.com/users.csv",
            "whois_headers": ["Name", "User ID"],
            "whois_data": [["Alice", "111"], ["Bob", "222"]],
            "webtoons": {"weakhero": "https://www.webtoons.com/en/x"}
        }"#,
    )
    .unwrap();
    assert_eq!(document, expected);
}

#[test]
fn save_after_load_and_change_across_runs_keeps_the_last_values() {
    let mut first = GuildData::from_file(GuildId(3), None);
    first.count = 1;
    first.update_count();
    let bytes = first.save().unwrap();

    let mut second = GuildData::from_file(GuildId(3), Some(&bytes));
    assert_eq!(second.count, 1);
    second.count = 2;
    second.whois_headers = strings(&["ID"]);
    second.update_count();
    second.update_whois();
    let bytes = second.save().unwrap();

    let third = GuildData::from_file(GuildId(3), Some(&bytes));
    assert_eq!(third.count, 2);
    assert_eq!(third.whois_headers, strings(&["ID"]));
}

#[test]
fn save_writes_what_the_record_holds_when_it_is_saved() {
    let mut record = GuildData::empty(GuildId(3));
    let first = record.save().unwrap();
    assert_eq!(GuildData::from_file(GuildId(3), Some(&first)).count, 0);

    record.count = 4;
    let second = record.save().unwrap();
    let document: serde_json::Value = serde_json::from_slice(&second).unwrap();
    assert_eq!(document["count"].as_u64(), Some(4));
    assert_eq!(GuildData::from_file(GuildId(3), Some(&second)).count, 4);

    record.add_webtoon("foo".to_string(), "http://x".to_string());
    let third = record.save().unwrap();
    let loaded = GuildData::from_file(GuildId(3), Some(&third));
    assert_eq!(loaded.count, 4);
    assert_eq!(loaded.webtoons.get("foo"), Some(&"http://x".to_string()));

    record.remove_webtoon("foo");
    record.whois_url = Some("http://y".to_string());
    record.whois_headers = strings(&["ID"]);
    record.whois_data = vec![strings(&["7"])];
    let fourth = record.save().unwrap();
    let loaded = GuildData::from_file(GuildId(3), Some(&fourth));
    assert_eq!(loaded.webtoons.len(), 0);
    assert_same_fields(&loaded, &record);
}

#[test]
fn a_part_that_is_changed_is_staged_by_its_update_or_by_save() {
    let mut record = GuildData::empty(GuildId(3));
    record.save().unwrap();
    record.count = 5;
    record.add_webtoon("foo".to_string(), "http://x".to_string());
    assert_eq!(record.json.value()["count"], serde_json::Value::from(0u64));

    record.update_count();
    assert_eq!(record.json.value()["count"], serde_json::Value::from(5u64));
    assert_eq!(record.json.value()["webtoons"], serde_json::Value::Object(serde_json::Map::new()));

    record.save().unwrap();
    assert_eq!(record.json.value()["webtoons"]["foo"], serde_json::Value::from("http://x"));
}

#[test]
fn update_stages_everything_where_nothing_is_staged() {
    let mut record = sample();
    record.update_count();
    let expected: serde_json::Value = serde_json::from_str(
        r#"{
            "count": 9,
            "whois_url": "https://example.com/users.csv",
            "whois_headers": ["Name", "User ID"],
            "whois_data": [["Alice", "111"], ["Bob", "222"]],
            "webtoons": {"weakhero": "https://www.webtoons.com/en/x"}
        }"#,
    )
    .unwrap();
    assert_eq!(record.json.value(), &expected);

    let mut other = sample();
    other.update_whois();
    assert_eq!(other.json.value(), &expected);

    let mut third = sample();
    third.update_webtoons();
    assert_eq!(third.json.value(), &expected);
}

#[test]
fn update_stages_its_part_and_leaves_the_rest() {
    let mut record = GuildData::empty(GuildId(42));
    record.count = 1;
    record.save().unwrap();
    let changed = sample();
    record.count = changed.count;
    record.whois_url = changed.whois_url;
    record.whois_headers = changed.whois_headers;
    record.whois_data = changed.whois_data;
    record.add_webtoon("weakhero".to_string(), "https://www.webtoons.com/en/x".to_string());

    record.update_whois();
    let expected: serde_json::Value = serde_json::from_str(
        r#"{
            "count": 1,
            "whois_url": "https://example.com/users.csv",
            "whois_headers": ["Name", "User ID"],
            "whois_data": [["Alice", "111"], ["Bob", "222"]],
            "webtoons": {}
        }"#,
    )
    .unwrap();
    assert_eq!(record.json.value(), &expected);

    record.update_count();
    assert_eq!(record.json.value()["count"], serde_json::Value::from(9u64));
    assert_eq!(record.json.value()["webtoons"], serde_json::Value::Object(serde_json::Map::new()));

    record.update_webtoons();
    assert_eq!(
        record.json.value()["webtoons"]["weakhero"],
        serde_json::Value::from("https://www.webtoons.com/en/x")
    );
    assert_eq!(record.json.value().as_object().unwrap().len(), 5);
    assert_same_fields(&record, &sample());
}

#[test]
fn update_whois_stages_a_missing_address_as_null() {
    let mut record = sample();
    record.save().unwrap();
    record.whois_url = None;
    record.update_whois();
    assert_eq!(record.json.value()["whois_url"], serde_json::Value::Null);
    assert!(record.json.value().as_object().unwrap().contains_key("whois_url"));
}

#[test]
fn save_always_returns_the_bytes_of_an_object_with_the_five_members() {
    let mut records = vec![GuildData::empty(GuildId(0)), sample()];
    let mut staged = sample();
    staged.update_webtoons();
    staged.count = u64::MAX;
    staged.whois_headers = strings(&["\"quoted\"", "new\nline", "é", ""]);
    staged.update_count();
    staged.update_whois();
    records.push(staged);
    for record in records.iter_mut() {
        let bytes = record.save().unwrap();
        let document: serde_json::Value = serde_json::from_slice(&bytes).unwrap();
        let mut names: Vec<&String> = document.as_object().unwrap().keys().collect();
        names.sort();
        assert_eq!(names, ["count", "webtoons", "whois_data", "whois_headers", "whois_url"]);
        assert!(document["count"].is_u64());
        assert!(document["whois_url"].is_string() || document["whois_url"].is_null());
        assert!(document["whois_headers"].is_array());
        assert!(document["whois_data"].is_array());
        assert!(document["webtoons"].is_object());
        assert_eq!(&document, record.json.value());
    }
}

#[test]
fn save_leaves_the_fields_as_they_were() {
    let mut record = sample();
    let outcome = record.save();
    assert!(outcome.is_ok());
    assert_same_fields(&record, &sample());
    let again = record.save();
    assert!(again.is_ok());
    assert_same_fields(&record, &sample());
}

#[test]
fn a_failed_write_is_passed_on_as_an_error_of_the_writer() {
    let failure = serde_json::from_slice::<serde_json::Value>(b"{").unwrap_err();
    let shown = format!("{:?}", failure);
    match save_outcome(Err(failure)) {
        Err(DumbError::SerdeError(error)) => assert_eq!(format!("{:?}", error), shown),
        other => panic!("unexpected outcome: {:?}", other),
    }
    assert_eq!(save_outcome(Ok(vec![1, 2, 3])).unwrap(), vec![1, 2, 3]);
}

#[test]
fn whois_entry_is_found_by_the_first_id_column() {
    let mut record = GuildData::empty(GuildId(1));
    record.whois_headers = strings(&["Name", "User ID"]);
    record.whois_data = vec![strings(&["Alice", "111"]), strings(&["Bob", "222"])];
    assert_eq!(record.get_whois_entry_by_id(&"222".to_string()), Some(&strings(&["Bob", "222"])));
    assert_eq!(record.get_whois_entry_by_id(&"111".to_string()), Some(&strings(&["Alice", "111"])));
    assert_eq!(record.get_whois_entry_by_id(&"333".to_string()), None);
    assert_eq!(record.get_whois_entry_by_id(&"Bob".to_string()), None);
}

#[test]
fn whois_entry_is_not_found_without_an_id_column() {
    let mut record = GuildData::empty(GuildId(1));
    record.whois_headers = strings(&["Name", "Number"]);
    record.whois_data = vec![strings(&["Alice", "111"])];
    assert_eq!(record.get_whois_entry_by_id(&"111".to_string()), None);
    assert_eq!(record.get_whois_entry_by_id(&"Alice".to_string()), None);

    let empty = GuildData::empty(GuildId(1));
    assert_eq!(empty.get_whois_entry_by_id(&"111".to_string()), None);
}

#[test]
fn whois_entry_takes_the_first_column_and_the_first_row() {
    let mut record = GuildData::empty(GuildId(1));
    record.whois_headers = strings(&["Name", "Discord iD", "Student ID"]);
    record.whois_data = vec![
        strings(&["Alice", "1", "2"]),
        strings(&["Bob", "2", "1"]),
        strings(&["Carol", "2", "3"]),
    ];
    assert_eq!(record.get_whois_entry_by_id(&"2".to_string()), Some(&strings(&["Bob", "2", "1"])));
    assert_eq!(record.get_whois_entry_by_id(&"3".to_string()), None);
}

#[test]
fn whois_entry_passes_over_rows_that_are_too_short() {
    let mut record = GuildData::empty(GuildId(1));
    record.whois_headers = strings(&["Name", "ID"]);
    record.whois_data = vec![strings(&["7"]), strings(&[]), strings(&["Alice", "7", "x"])];
    assert_eq!(record.get_whois_entry_by_id(&"7".to_string()), Some(&strings(&["Alice", "7", "x"])));
}

#[test]
fn a_header_names_an_id_in_any_case() {
    assert!(names_id("id"));
    assert!(names_id("ID"));
    assert!(names_id("User Id"));
    assert!(names_id("iD number"));
    assert!(names_id("Valid"));
    assert!(names_id("wIDe"));
    assert!(!names_id(""));
    assert!(!names_id("i"));
    assert!(!names_id("d"));
    assert!(!names_id("di"));
    assert!(!names_id("i d"));
    assert!(!names_id("Name"));
    assert!(!names_id("ïd"));
    assert!(names_id("ïid"));
    assert_eq!(id_column(&strings(&["a", "b"])), None);
    assert_eq!(id_column(&strings(&["a", "kid", "id"])), Some(1));
    assert_eq!(id_column(&strings(&[])), None);
}

#[test]
fn added_and_removed_webtoon_is_gone() {
    let mut record = GuildData::empty(GuildId(1));
    record.add_webtoon("foo".to_string(), "http://x".to_string());
    assert_eq!(record.webtoons.get("foo"), Some(&"http://x".to_string()));
    assert!(record.remove_webtoon("foo"));
    assert!(!record.webtoons.contains_key("foo"));
    assert_eq!(record.webtoons.len(), 0);
}

#[test]
fn removing_a_webtoon_that_is_not_there_changes_nothing() {
    let mut record = GuildData::empty(GuildId(1));
    record.add_webtoon("foo".to_string(), "http://x".to_string());
    assert!(!record.remove_webtoon("bar"));
    assert_eq!(record.webtoons.len(), 1);
    assert_eq!(record.webtoons.get("foo"), Some(&"http://x".to_string()));
    let mut empty = GuildData::empty(GuildId(1));
    assert!(!empty.remove_webtoon("foo"));
    assert_eq!(empty.webtoons.len(), 0);
}

#[test]
fn adding_a_webtoon_again_replaces_its_address() {
    let mut record = GuildData::empty(GuildId(1));
    record.add_webtoon("foo".to_string(), "http://x".to_string());
    record.add_webtoon("foo".to_string(), "http://y".to_string());
    assert_eq!(record.webtoons.len(), 1);
    assert_eq!(record.webtoons.get("foo"), Some(&"http://y".to_string()));
}

#[test]
fn three_increments_show_and_persist_three() {
    let mut record = GuildData::from_file(GuildId(11), None);
    assert_eq!(record.count, 0);
    record.increment_count();
    record.increment_count();
    record.increment_count();
    assert_eq!(record.count, 3);
    assert_eq!(decimal_string(record.count), "3");
    record.update_count();
    let bytes = record.save().unwrap();
    let document: serde_json::Value = serde_json::from_slice(&bytes).unwrap();
    assert_eq!(document["count"].as_u64(), Some(3));
    assert_eq!(GuildData::from_file(GuildId(11), Some(&bytes)).count, 3);
}

#[test]
fn guild_record_is_kept_in_a_file_named_by_its_number() {
    assert_eq!(GuildData::path(GuildId(42)), "data/guilds/42.json");
    assert_eq!(GuildData::path(GuildId(0)), "data/guilds/0.json");
    assert_eq!(
        GuildData::path(GuildId(u64::MAX)),
        "data/guilds/18446744073709551615.json"
    );
}
