use signage_core::format::{Formatter, OutputType};
use signage_core::json::{JsonNum, JsonValue};
use signage_core::views::{Assets, EdgeAppSettings, EdgeAppVersions, EdgeApps, PlaylistItems,
    Screens};

fn s(text: &str) -> JsonValue {
    JsonValue::Str(text.to_string())
}

fn inum(n: u64) -> JsonValue {
    JsonValue::Num(JsonNum { text: n.to_string(), int_val: Some(n), trunc: n })
}

fn obj(fields: Vec<(&str, JsonValue)>) -> JsonValue {
    JsonValue::Obj(fields.into_iter().map(|(k, v)| (k.to_string(), v)).collect())
}

#[test]
fn missing_field_without_transformer_renders_as_na() {
    // an asset with no "status" field: that cell, and only that cell, is N/A
    let assets = Assets::new(JsonValue::Arr(vec![obj(vec![
        ("id", s("a1")),
        ("title", s("intro")),
        ("type", s("video")),
    ])]));
    let table = assets.format(OutputType::HumanReadable);
    assert!(table.contains("| a1 "), "unexpected table: {table}");
    assert!(table.contains("| intro "), "unexpected table: {table}");
    assert!(table.contains("| N/A "), "unexpected table: {table}");
}

#[test]
fn versions_render_revision_zero_as_na_and_published_as_marks() {
    let versions = EdgeAppVersions::new(JsonValue::Arr(vec![obj(vec![
        ("revision", inum(0)),
        ("description", s("draft")),
        ("published", JsonValue::Bool(false)),
    ])]));
    let table = versions.format(OutputType::HumanReadable);
    assert!(table.contains("| N/A "), "unexpected table: {table}");
    assert!(table.contains("| draft "), "unexpected table: {table}");
    assert!(table.contains("| \u{274c} "), "unexpected table: {table}");
}

#[test]
fn versions_render_positive_revision_and_published_check() {
    let versions = EdgeAppVersions::new(JsonValue::Arr(vec![obj(vec![
        ("revision", inum(7)),
        ("description", s("live")),
        ("published", JsonValue::Bool(true)),
    ])]));
    let table = versions.format(OutputType::HumanReadable);
    assert!(table.contains("| 7 "), "unexpected table: {table}");
    assert!(table.contains("| \u{2705} "), "unexpected table: {table}");
}

#[test]
fn screens_render_uptime_right_aligned_and_na_when_absent() {
    let screens = Screens::new(JsonValue::Arr(vec![
        obj(vec![("uptime", inum(3661))]),
        obj(vec![]),
    ]));
    let table = screens.format(OutputType::HumanReadable);
    // 3661 seconds read as "61 minutes"; the absent uptime is N/A, pushed to
    // the right edge of the column that "61 minutes" widened
    assert!(table.contains("| 61 minutes |"), "unexpected table: {table}");
    assert!(table.contains("|        N/A |"), "unexpected table: {table}");
}

#[test]
fn screens_render_in_sync_as_marks() {
    let screens = Screens::new(JsonValue::Arr(vec![obj(vec![(
        "in_sync",
        JsonValue::Bool(true),
    )])]));
    let table = screens.format(OutputType::HumanReadable);
    assert!(table.contains("\u{2705}"), "unexpected table: {table}");
}

#[test]
fn playlist_items_render_durations_as_human_text() {
    let items = PlaylistItems::new(JsonValue::Arr(vec![obj(vec![
        ("asset_id", s("a1")),
        ("duration", JsonValue::Num(JsonNum { text: "12.9".to_string(), int_val: None, trunc: 12 })),
    ])]));
    let table = items.format(OutputType::HumanReadable);
    assert!(table.contains("| a1 "), "unexpected table: {table}");
    assert!(table.contains("| 12 seconds "), "unexpected table: {table}");
}

#[test]
fn settings_view_renders_optional_as_yes_no_and_blank_fallback() {
    let settings = EdgeAppSettings::new(JsonValue::Arr(vec![obj(vec![
        ("title", s("username")),
        ("optional", JsonValue::Bool(true)),
        ("type", s("string")),
    ])]));
    let table = settings.format(OutputType::HumanReadable);
    assert!(table.contains("| username "), "unexpected table: {table}");
    assert!(table.contains("| Yes "), "unexpected table: {table}");
    // a missing field with this transform renders empty, not N/A
    assert!(!table.contains("N/A"), "unexpected table: {table}");
}

#[test]
fn non_array_value_renders_headers_only() {
    let apps = EdgeApps::new(JsonValue::Null);
    let table = apps.format(OutputType::HumanReadable);
    assert!(table.contains("| Id "), "unexpected table: {table}");
    assert!(table.contains("| Title "), "unexpected table: {table}");
    let lines: Vec<&str> = table.lines().collect();
    // border, header row, border: nothing else
    assert_eq!(lines.len(), 3, "unexpected table: {table}");
}

#[test]
fn json_mode_pretty_prints_the_whole_value() {
    let apps = EdgeApps::new(JsonValue::Arr(vec![obj(vec![
        ("id", s("a")),
        ("name", s("app")),
        ("extra", inum(3)),
    ])]));
    let rendered = apps.format(OutputType::Json);
    let expected = "[\n  {\n    \"id\": \"a\",\n    \"name\": \"app\",\n    \"extra\": 3\n  }\n]";
    assert_eq!(rendered, expected);
}

#[test]
fn json_mode_escapes_strings() {
    let apps = EdgeApps::new(JsonValue::Str("a\"b\\c\nd".to_string()));
    let rendered = apps.format(OutputType::Json);
    assert_eq!(rendered, "\"a\\\"b\\\\c\\nd\"");
}
