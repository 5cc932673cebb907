use ornery_bot::client_data::emoji_data::EmojiData;
use ornery_bot::client_data::guild_data::GuildData;
use ornery_bot::client_data::GuildId;
use ornery_bot::store::Store;
use std::cell::Cell;

#[test]
fn a_record_is_loaded_when_it_is_first_asked_for() {
    let mut store: Store<GuildData> = Store::new();
    assert!(!store.is_loaded(GuildId(1)));
    let reads = Cell::new(0);
    {
        let record = store.get_or_load(GuildId(1), || {
            reads.set(reads.get() + 1);
            Some(br#"{"count": 4}"#.to_vec())
        });
        assert_eq!(record.id, GuildId(1));
        assert_eq!(record.count, 4);
        record.count = 5;
    }
    assert_eq!(reads.get(), 1);
    assert!(store.is_loaded(GuildId(1)));
    assert!(!store.is_loaded(GuildId(2)));
}

#[test]
fn a_loaded_record_is_handed_out_as_it_is() {
    let mut store: Store<GuildData> = Store::new();
    store.get_or_load(GuildId(1), || None).count = 9;
    let reads = Cell::new(0);
    let record = store.get_or_load(GuildId(1), || {
        reads.set(reads.get() + 1);
        Some(br#"{"count": 4}"#.to_vec())
    });
    assert_eq!(record.count, 9);
    assert_eq!(reads.get(), 0);
}

#[test]
fn a_record_without_a_file_is_loaded_empty() {
    let mut store: Store<EmojiData> = Store::new();
    let record = store.get_or_load(GuildId(3), || None);
    assert_eq!(record.id, GuildId(3));
    assert_eq!(record.emoji.len(), 0);
    record.track_emoji("x".to_string());
    assert_eq!(store.get_or_load(GuildId(3), || None).emoji.get("x"), Some(&1));
    assert_eq!(store.get_or_load(GuildId(4), || None).emoji.get("x"), None);
}

#[test]
fn records_of_guilds_are_kept_apart() {
    let mut store: Store<GuildData> = Store::new();
    store.get_or_load(GuildId(1), || None).count = 1;
    store.get_or_load(GuildId(2), || Some(b"garbage".to_vec())).count = 2;
    assert_eq!(store.get_or_load(GuildId(1), || None).count, 1);
    assert_eq!(store.get_or_load(GuildId(2), || None).count, 2);
    assert_eq!(store.records.len(), 2);
}
