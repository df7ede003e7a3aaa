use portal_shell::error::{Error, ErrorInfo};

#[test]
fn error_info_maps_every_variant() {
    let cases: Vec<(Error, u16, &str)> = vec![
        (Error::AnyError("a".to_string()), 500, "Internal Server Error"),
        (Error::ConfigError("b".to_string()), 500, "Configuration Error"),
        (
            Error::RootConfigError("c".to_string()),
            500,
            "Root Configuration Error",
        ),
        (Error::ManifestError("d".to_string()), 500, "Manifest Error"),
        (Error::ValidationError("e".to_string()), 400, "Validation Error"),
        (Error::BadRequest("f".to_string()), 400, "Bad Request"),
        (Error::Forbidden("g".to_string()), 403, "Forbidden"),
        (Error::JsonParseError("h".to_string()), 500, "JSON Parse Error"),
        (Error::ServiceError("i".to_string()), 500, "Service Error"),
    ];
    for (error, status_code, title) in cases {
        let message = error.message().clone();
        assert_eq!(error.status_code(), status_code);
        let info = ErrorInfo::of_error(error);
        assert_eq!(info.status_code, status_code);
        assert_eq!(info.title, title);
        assert_eq!(info.message, message);
        assert_eq!(info.description, message);
    }
}

#[test]
fn error_message_is_the_carried_payload() {
    let error = Error::ManifestError("the apm portal broke".to_string());
    assert_eq!(error.message().as_str(), "the apm portal broke");
}

#[test]
fn error_info_new_is_a_generic_server_error() {
    let info = ErrorInfo::new("something failed".to_string());
    assert_eq!(info.status_code, 500);
    assert_eq!(info.title, "Internal Server Error");
    assert_eq!(info.message, "something failed");
    assert_eq!(info.description, "something failed");
}
