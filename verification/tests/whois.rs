use ornery_bot::commands::whois::{
    after_lookup, choose_id_field, choose_url, display_matches, entry_heading, fetch_rows,
    fill_template, introductions, is_option_name, read_table, reversed, shown_fields, tried,
    unknown_member, unknown_user, user_id_in, weave, whois_row, whois_rows, Attempts, FetchError,
    Lookup, UserKey, DEFAULT_DISPLAY,
};
use ornery_bot::string_map::StringMap;

fn strings(items: &[&str]) -> Vec<String> {
    items.iter().map(|item| item.to_string()).collect()
}

fn fields(entries: &[(&str, &str)]) -> StringMap<String> {
    let mut map = StringMap::new();
    for (key, value) in entries {
        map.insert(key.to_string(), value.to_string());
    }
    map
}

const NONE_TRIED: Attempts =
    Attempts { tried_id: false, tried_member_match: false, tried_first_search: false };

#[test]
fn user_id_is_the_first_run_of_digits() {
    assert_eq!(user_id_in("393248490739859458"), Some("393248490739859458".to_string()));
    assert_eq!(user_id_in("<@!393248490739859458>"), Some("393248490739859458".to_string()));
    assert_eq!(user_id_in("a12b34"), Some("12".to_string()));
    assert_eq!(user_id_in("moofy-bot"), None);
    assert_eq!(user_id_in(""), None);
}

#[test]
fn display_matches_lists_each_user() {
    assert_eq!(display_matches(&vec![]), "");
    assert_eq!(display_matches(&vec![7]), "<@7> (7)\n");
    assert_eq!(display_matches(&vec![7, 42]), "<@7> (7)\n<@42> (42)\n");
}

#[test]
fn display_matches_ends_before_1900_bytes_are_passed() {
    let ids: Vec<u64> = (0..100).map(|at| 100_000_000_000_000_000 + at).collect();
    let shown = display_matches(&ids);
    let line = "<@100000000000000000> (100000000000000000)\n".len();
    assert_eq!(line, 43);
    assert_eq!(shown.len(), 44 * line);
    assert!(shown.len() <= 1900);
    assert!(shown.len() + line > 1900);
    assert!(shown.ends_with("<@100000000000000043> (100000000000000043)\n"));

    let mut mixed: Vec<u64> = (0..44).map(|at| 100_000_000_000_000_000 + at).collect();
    mixed.push(1);
    mixed.push(2);
    assert_eq!(display_matches(&mixed).len(), 44 * line);

    let mut mixed: Vec<u64> = (0..43).map(|at| 100_000_000_000_000_000 + at).collect();
    mixed.extend(1..=9);
    let shown = display_matches(&mixed);
    assert_eq!(shown.len(), 43 * line + 5 * 9);
    assert!(shown.ends_with("<@4> (4)\n<@5> (5)\n"));
}

#[test]
fn lookups_that_show_nothing_are_marked_as_tried() {
    assert_eq!(after_lookup(NONE_TRIED, Lookup::UserId, true), None);
    assert_eq!(
        after_lookup(NONE_TRIED, Lookup::UserId, false),
        Some(Attempts { tried_id: true, ..NONE_TRIED })
    );
    assert_eq!(
        after_lookup(NONE_TRIED, Lookup::MemberName, false),
        Some(Attempts { tried_member_match: true, ..NONE_TRIED })
    );
    let two = Attempts { tried_id: true, tried_member_match: true, tried_first_search: false };
    assert_eq!(
        after_lookup(two, Lookup::FirstSearch, false),
        Some(Attempts { tried_id: true, tried_member_match: true, tried_first_search: true })
    );
    assert_eq!(after_lookup(two, Lookup::FirstSearch, true), None);
}

#[test]
fn tried_names_what_was_tried() {
    assert_eq!(tried(NONE_TRIED), " ");
    assert_eq!(
        tried(Attempts { tried_id: true, ..NONE_TRIED }),
        "\nI tried:\n- looking up the user ID/mention.\nbut I couldn't find anyone on this server who has a whois entry.\n\n"
    );
    assert_eq!(
        tried(Attempts { tried_id: true, tried_member_match: true, tried_first_search: true }),
        "\nI tried:\n- looking up the user ID/mention.\n- matching the member by their exact name.\n- trying the first result that somewhat resembled what you wrote.\nbut I couldn't find anyone on this server who has a whois entry.\n\n"
    );
    assert_eq!(
        tried(Attempts { tried_first_search: true, ..NONE_TRIED }),
        "\nI tried:\n- trying the first result that somewhat resembled what you wrote.\nbut I couldn't find anyone on this server who has a whois entry.\n\n"
    );
}

#[test]
fn unknown_member_without_a_guess_hints_at_fetch() {
    let reply = unknown_member(NONE_TRIED, None, "<@1> (1)\n");
    assert_eq!(
        reply.content,
        "I don't know the person you're referring to. (Hint: It might be possible the mods have not done `:whois fetch`?)"
    );
    assert_eq!(reply.embed, None);
}

#[test]
fn unknown_member_with_a_guess_lists_the_others() {
    let reply = unknown_member(
        Attempts { tried_first_search: true, ..NONE_TRIED },
        Some(5),
        "<@1> (1)\n",
    );
    assert_eq!(
        reply.content,
        "I don't know the person you're referring to.\nI tried:\n- trying the first result that somewhat resembled what you wrote.\nbut I couldn't find anyone on this server who has a whois entry.\n\n(Hint: Have the mods done `:whois fetch`?) Perhaps I may know these other users? If so, do `:whois <user id>`."
    );
    assert_eq!(reply.embed, Some("**<@5> (5)\n**\n<@1> (1)\n".to_string()));
}

#[test]
fn entry_heading_tells_how_the_member_was_found() {
    assert_eq!(entry_heading("7", None), "What I know about <@7>");
    assert_eq!(
        entry_heading("7", Some("")),
        "What I know about <@7> (whom I'm guessing you're referring to)"
    );
    assert_eq!(
        entry_heading("7", Some("<@8> (8)\n")),
        "Other users you may have meant:\n<@8> (8)\n\nBut here's what we know about <@7>"
    );
}

#[test]
fn shown_fields_are_the_texts_that_are_not_hidden_or_empty() {
    let entry = vec![
        ("_id".to_string(), None),
        ("_guild".to_string(), None),
        ("Name".to_string(), Some("Alice".to_string())),
        ("Empty".to_string(), Some(String::new())),
        ("_user".to_string(), Some("111".to_string())),
        ("Number".to_string(), None),
        ("".to_string(), Some("no name".to_string())),
        ("a_b".to_string(), Some("x".to_string())),
    ];
    assert_eq!(
        shown_fields(&entry),
        vec![
            ("Name".to_string(), "Alice".to_string()),
            ("".to_string(), "no name".to_string()),
            ("a_b".to_string(), "x".to_string()),
        ]
    );
    assert_eq!(shown_fields(&vec![]), vec![]);
}

#[test]
fn unknown_user_is_told_by_number() {
    assert_eq!(unknown_user("123"), "[<@123> not known]");
}

#[test]
fn template_places_are_filled_from_the_fields() {
    let entry = fields(&[("First Name", "Ada"), ("Last Name", "Lovelace"), ("_user", "123")]);
    assert_eq!(fill_template("{{First Name}} {{Last Name}}", &entry), "Ada Lovelace");
    assert_eq!(fill_template(DEFAULT_DISPLAY, &entry), "<@123>");
    assert_eq!(fill_template("no places", &entry), "no places");
    assert_eq!(fill_template("", &entry), "");
    assert_eq!(fill_template("{{_user}}", &entry), "123");
    assert_eq!(fill_template("a{{_user}}b{{_user}}c", &entry), "a123b123c");
    assert_eq!(fill_template("{{First Name}}{{Last Name}}", &entry), "AdaLovelace");
}

#[test]
fn template_places_without_a_field_are_left_empty() {
    let entry = fields(&[("a", "1")]);
    assert_eq!(fill_template("[{{b}}]", &entry), "[]");
    assert_eq!(fill_template("{{}}", &entry), "{{}}");
    assert_eq!(fill_template("{{a}", &entry), "{{a}");
    assert_eq!(fill_template("{{a}}}", &entry), "1}");
    assert_eq!(fill_template("{{{a}}", &entry), "");
    assert_eq!(fill_template("{{a}}", &StringMap::new()), "");
}

#[test]
fn weave_puts_a_place_between_the_pieces() {
    let entry = fields(&[("n", "N"), ("", "E")]);
    let pieces = strings(&["a", "b", "c"]);
    let names = vec![Some("n".to_string()), None];
    assert_eq!(weave(&pieces, &names, &entry), "aNbEc");
    assert_eq!(weave(&pieces, &vec![Some("n".to_string())], &entry), "aNbc");
    assert_eq!(weave(&strings(&["a"]), &names, &entry), "a");
    assert_eq!(weave(&strings(&[]), &names, &entry), "");
    assert_eq!(weave(&pieces, &vec![Some("x".to_string()), Some("n".to_string())], &entry), "abNc");
}

#[test]
fn introductions_list_the_oldest_first() {
    assert_eq!(introductions(&strings(&["newest", "older", "oldest"])), "oldest\nolder\nnewest");
    assert_eq!(introductions(&strings(&["one"])), "one");
    assert_eq!(introductions(&strings(&[])), "");
    assert_eq!(reversed(&strings(&["a", "b", "c"])), strings(&["c", "b", "a"]));
}

#[test]
fn introductions_end_with_a_mark_where_they_do_not_fit() {
    let long = "x".repeat(995);
    let displays = vec![long.clone(), long.clone(), "y".to_string()];
    assert_eq!(introductions(&displays), format!("y\n{}\n{}", long, long));
    let displays = vec![long.clone(), long.clone(), "y".to_string(), "z".to_string()];
    assert_eq!(introductions(&displays), format!("[...]\ny\n{}\n{}", long, long));
    let displays = vec![long.clone(), long.clone(), "yy".to_string(), "z".to_string()];
    assert_eq!(introductions(&displays), format!("[...]\n{}\n{}", long, long));

    let fits = "x".repeat(1993);
    assert_eq!(introductions(&vec![fits.clone(), "y".to_string()]), format!("[...]\n{}", fits));
    let too_long = "x".repeat(1994);
    assert_eq!(introductions(&vec![too_long, "y".to_string()]), "[...]");
}

#[test]
fn id_field_and_url_are_the_given_or_the_remembered() {
    assert_eq!(choose_id_field(Some("User".to_string()), Some("Old".to_string())), "User");
    assert_eq!(choose_id_field(None, Some("Old".to_string())), "Old");
    assert_eq!(choose_id_field(None, None), "ID");
    assert_eq!(choose_url(Some("a".to_string()), Some("b".to_string())), Some("a".to_string()));
    assert_eq!(choose_url(None, Some("b".to_string())), Some("b".to_string()));
    assert_eq!(choose_url(None, None), None);
}

#[test]
fn a_row_has_its_cells_by_column_and_its_user() {
    let row = whois_row(&strings(&["Name", "ID"]), &strings(&["Alice", "111"]), "ID").unwrap();
    assert_eq!(
        row.fields.entries(),
        &vec![("Name".to_string(), "Alice".to_string()), ("ID".to_string(), "111".to_string())]
    );
    assert!(matches!(row.user, UserKey::Text(ref text) if text == "111"));
}

#[test]
fn a_row_without_the_id_column_has_no_user() {
    assert!(whois_row(&strings(&["Name", "ID"]), &strings(&["Alice", "111"]), "User").is_none());
    assert!(whois_row(&strings(&["Name", "ID"]), &strings(&["Alice"]), "ID").is_none());
    assert!(whois_row(&strings(&[]), &strings(&[]), "ID").is_none());
}

#[test]
fn a_row_is_about_the_guild_where_the_id_column_is_the_guild() {
    let row = whois_row(&strings(&["Name"]), &strings(&["Alice"]), "_guild").unwrap();
    assert!(matches!(row.user, UserKey::Guild));
    let named = whois_row(&strings(&["_guild"]), &strings(&["x"]), "_guild").unwrap();
    assert!(matches!(named.user, UserKey::Text(ref text) if text == "x"));
}

#[test]
fn a_later_column_of_the_same_name_stands() {
    let row = whois_row(&strings(&["ID", "Name", "ID"]), &strings(&["1", "A", "2", "extra"]), "ID")
        .unwrap();
    assert_eq!(
        row.fields.entries(),
        &vec![("ID".to_string(), "2".to_string()), ("Name".to_string(), "A".to_string())]
    );
    assert!(matches!(row.user, UserKey::Text(ref text) if text == "2"));
}

#[test]
fn fetch_reads_the_rows_of_a_csv() {
    let rows = fetch_rows("Name,User ID\nAlice,111\nBob,222\n", "User ID").unwrap();
    assert_eq!(rows.len(), 2);
    assert_eq!(rows[0].fields.get("Name"), Some(&"Alice".to_string()));
    assert_eq!(rows[0].fields.get("User ID"), Some(&"111".to_string()));
    assert!(matches!(rows[0].user, UserKey::Text(ref text) if text == "111"));
    assert_eq!(rows[1].fields.get("Name"), Some(&"Bob".to_string()));
    assert!(matches!(rows[1].user, UserKey::Text(ref text) if text == "222"));
}

#[test]
fn fetch_reads_quoted_cells() {
    let rows = fetch_rows("ID,Note\n1,\"a, b\"\n2,\"say \"\"hi\"\"\"\n", "ID").unwrap();
    assert_eq!(rows[0].fields.get("Note"), Some(&"a, b".to_string()));
    assert_eq!(rows[1].fields.get("Note"), Some(&"say \"hi\"".to_string()));
}

#[test]
fn fetch_of_nothing_gives_no_rows() {
    assert_eq!(fetch_rows("", "ID").unwrap().len(), 0);
    assert_eq!(fetch_rows("Name,ID\n", "ID").unwrap().len(), 0);
    assert_eq!(fetch_rows("Name,ID\n", "Missing").unwrap().len(), 0);
    let table = read_table("Name,ID\nA,1\n").unwrap();
    assert_eq!(table.headers, strings(&["Name", "ID"]));
    assert_eq!(table.records.len(), 1);
    assert_eq!(table.records[0].as_ref().unwrap(), &strings(&["A", "1"]));
    let empty = read_table("").unwrap();
    assert!(empty.headers.is_empty());
    assert!(empty.records.is_empty());
}

#[test]
fn fetch_complains_of_the_first_row_without_a_user() {
    match fetch_rows("Name,Number\nAlice,111\nBob,222\n", "ID") {
        Err(FetchError::Reason(reason)) => {
            assert_eq!(reason.0, "Row 1 does not have a value for ID")
        }
        other => panic!("unexpected outcome: {:?}", other),
    }
}

#[test]
fn fetch_passes_on_the_error_of_a_row_that_cannot_be_read() {
    match fetch_rows("Name,ID\nAlice,111\nBob\n", "ID") {
        Err(FetchError::Csv(_)) => {}
        other => panic!("unexpected outcome: {:?}", other),
    }
}

#[test]
fn rows_end_with_the_first_error() {
    let broken = read_table("a,b\n1\n").unwrap().records.remove(0).unwrap_err();
    let headers = strings(&["Name", "ID"]);
    let records = vec![Ok(strings(&["Alice", "1"])), Err(broken), Ok(strings(&["Bob", "2"]))];
    match whois_rows(&headers, records, "ID") {
        Err(FetchError::Csv(_)) => {}
        other => panic!("unexpected outcome: {:?}", other),
    }
    let broken = read_table("a,b\n1\n").unwrap().records.remove(0).unwrap_err();
    let records = vec![Ok(strings(&["Alice", "1"])), Ok(strings(&["Bob"])), Err(broken)];
    match whois_rows(&headers, records, "ID") {
        Err(FetchError::Reason(reason)) => {
            assert_eq!(reason.0, "Row 2 does not have a value for ID")
        }
        other => panic!("unexpected outcome: {:?}", other),
    }
    assert_eq!(whois_rows(&headers, vec![], "ID").unwrap().len(), 0);
}

#[test]
fn options_are_id_url_and_display() {
    assert!(is_option_name("id"));
    assert!(is_option_name("url"));
    assert!(is_option_name("display"));
    assert!(!is_option_name("ID"));
    assert!(!is_option_name(""));
    assert!(!is_option_name("display "));
    assert!(!is_option_name("name"));
}
