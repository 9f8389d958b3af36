use signage_core::errors::CommandError;
use signage_core::http::{delete, get, patch, post};
use signage_core::json::JsonValue;

fn body() -> Option<JsonValue> {
    Some(JsonValue::Str("ok".to_string()))
}

#[test]
fn get_accepts_only_status_200() {
    assert_eq!(get(200, body()), Ok(JsonValue::Str("ok".to_string())));
    for status in [201u16, 204, 301, 400, 404, 500] {
        assert_eq!(get(status, body()), Err(CommandError::WrongResponseStatus(status)));
    }
}

#[test]
fn get_fails_on_unparsable_body() {
    assert_eq!(get(200, None), Err(CommandError::Parse));
}

#[test]
fn post_accepts_200_201_and_204() {
    assert_eq!(post(200, body()), Ok(JsonValue::Str("ok".to_string())));
    assert_eq!(post(201, body()), Ok(JsonValue::Str("ok".to_string())));
    assert_eq!(post(204, body()), Ok(JsonValue::Null));
    assert_eq!(post(204, None), Ok(JsonValue::Null));
    for status in [202u16, 400, 404, 500] {
        assert_eq!(post(status, body()), Err(CommandError::WrongResponseStatus(status)));
    }
}

#[test]
fn post_fails_on_unparsable_body() {
    assert_eq!(post(200, None), Err(CommandError::Parse));
    assert_eq!(post(201, None), Err(CommandError::Parse));
}

#[test]
fn patch_accepts_200_and_maps_204_to_null() {
    assert_eq!(patch(200, body()), Ok(JsonValue::Str("ok".to_string())));
    assert_eq!(patch(204, body()), Ok(JsonValue::Null));
    for status in [201u16, 301, 400, 404, 500] {
        assert_eq!(patch(status, body()), Err(CommandError::WrongResponseStatus(status)));
    }
}

#[test]
fn patch_degrades_an_unparsable_200_body_to_null() {
    assert_eq!(patch(200, None), Ok(JsonValue::Null));
}

#[test]
fn delete_accepts_200_and_204_and_returns_no_value() {
    assert_eq!(delete(200), Ok(()));
    assert_eq!(delete(204), Ok(()));
    for status in [201u16, 301, 400, 404, 500] {
        assert_eq!(delete(status), Err(CommandError::WrongResponseStatus(status)));
    }
}
