use signage_core::errors::CommandError;

#[test]
fn error_messages_carry_their_data() {
    assert_eq!(CommandError::Authentication.message(), "auth error");
    assert_eq!(
        CommandError::WrongResponseStatus(404).message(),
        "unknown error: 404"
    );
    assert_eq!(CommandError::Parse.message(), "parse error");
    assert_eq!(
        CommandError::MissingRequiredFile("index.html".to_string()).message(),
        "Required file is missing in the edge app directory: index.html"
    );
    assert_eq!(
        CommandError::NoChangesToUpload("same hash".to_string()).message(),
        "Cannot upload a new version: same hash"
    );
    assert_eq!(
        CommandError::Io("denied".to_string()).message(),
        "I/O error: denied"
    );
    assert_eq!(
        CommandError::FileSystemError("bad layout".to_string()).message(),
        "Filesystem error: bad layout"
    );
    assert_eq!(
        CommandError::Request("timed out".to_string()).message(),
        "request error: timed out"
    );
    assert_eq!(
        CommandError::MissingField.message(),
        "Required field is missing in the response"
    );
    assert_eq!(CommandError::InvalidHeaderValue.message(), "Invalid header value");
    assert_eq!(CommandError::StripPrefixError.message(), "Strip prefix error");
    assert_eq!(
        CommandError::AssetProcessingTimeout.message(),
        "Asset processing timeout"
    );
}
