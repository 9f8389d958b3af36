use signage_core::errors::CommandError;
use signage_core::json::{JsonNum, JsonValue};
use signage_core::playlist::{default_pos_value, PlaylistFile, PlaylistItem};

fn obj(fields: Vec<(&str, JsonValue)>) -> JsonValue {
    JsonValue::Obj(fields.into_iter().map(|(k, v)| (k.to_string(), v)).collect())
}

fn num(text: &str, int_val: Option<u64>, trunc: u64) -> JsonValue {
    JsonValue::Num(JsonNum { text: text.to_string(), int_val, trunc })
}

#[test]
fn duration_is_truncated_not_rounded() {
    // a wire duration of 12.9: truncated toward zero it is 12
    let item = PlaylistItem::from_json(&obj(vec![
        ("asset_id", JsonValue::Str("a1".to_string())),
        ("duration", num("12.9", None, 12)),
    ]))
    .unwrap();
    assert_eq!(item.duration, 12);
    assert_ne!(item.duration, 13);
}

#[test]
fn position_defaults_to_zero_and_is_read_when_present() {
    let absent = PlaylistItem::from_json(&obj(vec![
        ("asset_id", JsonValue::Str("a1".to_string())),
        ("duration", num("30", Some(30), 30)),
    ]))
    .unwrap();
    assert_eq!(absent.position, default_pos_value());
    assert_eq!(absent.position, 0);

    let present = PlaylistItem::from_json(&obj(vec![
        ("asset_id", JsonValue::Str("a1".to_string())),
        ("duration", num("30", Some(30), 30)),
        ("position", num("5", Some(5), 5)),
    ]))
    .unwrap();
    assert_eq!(present.position, 5);
}

#[test]
fn item_without_asset_id_is_a_parse_error() {
    let r = PlaylistItem::from_json(&obj(vec![("duration", num("30", Some(30), 30))]));
    assert_eq!(r, Err(CommandError::Parse));
}

#[test]
fn item_with_non_numeric_duration_is_a_parse_error() {
    let r = PlaylistItem::from_json(&obj(vec![
        ("asset_id", JsonValue::Str("a1".to_string())),
        ("duration", JsonValue::Str("soon".to_string())),
    ]));
    assert_eq!(r, Err(CommandError::Parse));
}

#[test]
fn item_with_fractional_position_is_a_parse_error() {
    let r = PlaylistItem::from_json(&obj(vec![
        ("asset_id", JsonValue::Str("a1".to_string())),
        ("duration", num("30", Some(30), 30)),
        ("position", num("1.5", None, 1)),
    ]));
    assert_eq!(r, Err(CommandError::Parse));
}

#[test]
fn playlist_file_decodes_an_items_array() {
    let items = JsonValue::Arr(vec![
        obj(vec![
            ("asset_id", JsonValue::Str("a1".to_string())),
            ("duration", num("10.5", None, 10)),
        ]),
        obj(vec![
            ("asset_id", JsonValue::Str("a2".to_string())),
            ("duration", num("20", Some(20), 20)),
            ("position", num("1", Some(1), 1)),
        ]),
    ]);
    let file = PlaylistFile::new("TRUE".to_string(), "p1".to_string(), items).unwrap();
    assert_eq!(file.predicate().as_str(), "TRUE");
    assert_eq!(file.playlist_id().as_str(), "p1");
    assert_eq!(
        file.items(),
        &vec![
            PlaylistItem { asset_id: "a1".to_string(), duration: 10, position: 0 },
            PlaylistItem { asset_id: "a2".to_string(), duration: 20, position: 1 },
        ]
    );
}

#[test]
fn playlist_file_rejects_a_non_array() {
    let r = PlaylistFile::new("TRUE".to_string(), "p1".to_string(), JsonValue::Null);
    assert_eq!(r, Err(CommandError::Parse));
}

#[test]
fn playlist_file_rejects_an_array_with_one_bad_item() {
    let items = JsonValue::Arr(vec![
        obj(vec![
            ("asset_id", JsonValue::Str("a1".to_string())),
            ("duration", num("10", Some(10), 10)),
        ]),
        JsonValue::Str("not an item".to_string()),
    ]);
    let r = PlaylistFile::new("TRUE".to_string(), "p1".to_string(), items);
    assert_eq!(r, Err(CommandError::Parse));
}
