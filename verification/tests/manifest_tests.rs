use signage_core::manifest::{framed_document, EdgeAppManifest};
use signage_core::settings::Setting;

#[test]
fn manifest_document_round_trip_without_settings() {
    let manifest = EdgeAppManifest { app_id: "test_app".to_string(), ..Default::default() };
    let doc = manifest.to_doc();
    let back = EdgeAppManifest::from_doc(doc);
    assert_eq!(back, manifest);
}

#[test]
fn manifest_document_round_trip_with_settings() {
    let manifest = EdgeAppManifest {
        app_id: "test_app".to_string(),
        user_version: "1".to_string(),
        description: "greets".to_string(),
        icon: "icon.png".to_string(),
        author: "someone".to_string(),
        homepage_url: "https://example.com".to_string(),
        settings: vec![Setting {
            title: "username".to_string(),
            type_: "string".to_string(),
            default_value: "stranger".to_string(),
            optional: true,
            help_text: "An example of a setting that is used in index.html".to_string(),
        }],
    };
    let doc = manifest.to_doc();
    assert_eq!(doc.settings.len(), 1);
    assert_eq!(doc.settings[0].0, "username");
    let back = EdgeAppManifest::from_doc(doc);
    assert_eq!(back, manifest);
}

#[test]
fn framed_document_starts_with_the_marker_line() {
    assert_eq!(framed_document("app_id: x\n"), "---\napp_id: x\n");
    assert_eq!(framed_document(""), "---\n");
}
