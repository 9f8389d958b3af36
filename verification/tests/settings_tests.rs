use signage_core::settings::{decode_settings, encode_settings, Setting, SettingDef};

fn setting(title: &str, type_: &str, default_value: &str, optional: bool, help: &str) -> Setting {
    Setting {
        title: title.to_string(),
        type_: type_.to_string(),
        default_value: default_value.to_string(),
        optional,
        help_text: help.to_string(),
    }
}

fn def(type_: &str, default_value: &str, optional: bool, help: &str) -> SettingDef {
    SettingDef {
        type_: type_.to_string(),
        default_value: default_value.to_string(),
        optional,
        help_text: help.to_string(),
    }
}

#[test]
fn settings_encode_then_decode_is_identity() {
    let original = vec![
        setting("api_key", "secret", "", false, "backend key"),
        setting("username", "string", "stranger", true, "who greets"),
    ];
    let encoded = encode_settings(&original);
    let decoded = decode_settings(encoded);
    assert_eq!(decoded, original);
}

#[test]
fn settings_decode_orders_by_title_whatever_the_entry_order() {
    let forwards = vec![
        ("a".to_string(), def("string", "", false, "first")),
        ("b".to_string(), def("string", "", false, "second")),
    ];
    let backwards = vec![
        ("b".to_string(), def("string", "", false, "second")),
        ("a".to_string(), def("string", "", false, "first")),
    ];
    let d1 = decode_settings(forwards);
    let d2 = decode_settings(backwards);
    assert_eq!(d1, d2);
    assert_eq!(d1[0].title, "a");
    assert_eq!(d1[0].help_text, "first");
    assert_eq!(d1[1].title, "b");
    assert_eq!(d1[1].help_text, "second");
}

#[test]
fn settings_decode_injects_the_key_as_title() {
    let entries = vec![("username".to_string(), def("string", "stranger", true, "hello"))];
    let decoded = decode_settings(entries);
    assert_eq!(
        decoded,
        vec![setting("username", "string", "stranger", true, "hello")]
    );
}

#[test]
fn settings_encode_leaves_the_title_out_of_the_value() {
    let original = vec![setting("username", "string", "stranger", true, "hello")];
    let encoded = encode_settings(&original);
    assert_eq!(encoded.len(), 1);
    assert_eq!(encoded[0].0, "username");
    assert_eq!(encoded[0].1, def("string", "stranger", true, "hello"));
}

#[test]
fn settings_decode_of_empty_mapping_is_empty() {
    let decoded = decode_settings(Vec::new());
    assert!(decoded.is_empty());
}
