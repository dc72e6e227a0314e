use orbital_common::{DocsError, ProjectConfig};

#[test]
fn project_id_is_snake_case_name() {
    let config = ProjectConfig::new("My Factory Plan", "1.0");
    assert_eq!(config.id, "my_factory_plan");
    assert_eq!(config.name, "My Factory Plan");
    assert_eq!(config.asset_version, "1.0");
}

#[test]
fn error_constructors_keep_their_text() {
    assert!(matches!(DocsError::unknown_locale("xx"), DocsError::UnknownLocale { locale } if locale == "xx"));
    assert!(matches!(DocsError::invalid_format("bad"), DocsError::InvalidFormat { reason } if reason == "bad"));
    assert!(matches!(
        DocsError::failed_read("/p", "gone"),
        DocsError::FailedRead { path, reason } if path == "/p" && reason == "gone"
    ));
}
