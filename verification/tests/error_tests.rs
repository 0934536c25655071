use libplasmoid_updater::error::Error;

#[test]
fn test_skippable_errors() {
    assert!(Error::NoUpdatesAvailable.is_skippable());
    assert!(Error::ComponentNotFound("test".to_string()).is_skippable());

    assert!(!Error::NoUpdatesAvailable.is_transient());
    assert!(!Error::NoUpdatesAvailable.is_fatal());
}

#[test]
fn test_transient_errors() {
    assert!(Error::RateLimited.is_transient());
    assert!(Error::Network("connection reset".to_string()).is_transient());

    assert!(!Error::RateLimited.is_skippable());
    assert!(!Error::RateLimited.is_fatal());
}

#[test]
fn test_fatal_errors() {
    let fatal_errors = vec![
        Error::RequiresSudo,
        Error::SudoWithoutSystem,
        Error::InstallFailed("test".to_string()),
        Error::ExtractionFailed("test".to_string()),
        Error::DownloadFailed("test".to_string()),
        Error::BackupFailed("test".to_string()),
        Error::RestartFailed("test".to_string()),
        Error::Config("test".to_string()),
        Error::InvalidVersion("test".to_string()),
        Error::ChecksumMismatch {
            expected: "abc".to_string(),
            actual: "def".to_string(),
        },
        Error::MetadataNotFound,
        Error::IdResolutionFailed("test".to_string()),
        Error::ApiError(500),
        Error::XmlParse("test".to_string()),
        Error::Other("test".to_string()),
    ];

    for error in fatal_errors {
        assert!(error.is_fatal(), "Expected {:?} to be fatal", error);
        assert!(
            !error.is_skippable(),
            "Expected {:?} to not be skippable",
            error
        );
        assert!(
            !error.is_transient(),
            "Expected {:?} to not be transient",
            error
        );
    }
}

#[test]
fn test_error_categorization_mutually_exclusive() {
    let all_errors = vec![
        Error::NoUpdatesAvailable,
        Error::ComponentNotFound("test".to_string()),
        Error::RateLimited,
        Error::RequiresSudo,
        Error::InstallFailed("test".to_string()),
    ];

    for error in all_errors {
        let skippable = error.is_skippable();
        let transient = error.is_transient();
        let fatal = error.is_fatal();

        let count = [skippable, transient, fatal].iter().filter(|&&x| x).count();
        assert_eq!(
            count, 1,
            "Error {:?} should be in exactly one category: skippable={}, transient={}, fatal={}",
            error, skippable, transient, fatal
        );
    }
}

#[test]
fn every_error_has_its_message() {
    assert_eq!(Error::Network("x".into()).message(), "network request failed: x");
    assert_eq!(Error::RateLimited.message(), "api rate limited, retry after backoff");
    assert_eq!(Error::ApiError(503).message(), "api returned error status: 503");
    assert_eq!(Error::xml_parse("x").message(), "failed to parse xml: x");
    assert_eq!(Error::MetadataParse("x".into()).message(), "failed to parse metadata.json: x");
    assert_eq!(Error::Io("x".into()).message(), "io error: x");
    assert_eq!(Error::ComponentNotFound("x".into()).message(), "component not found: x");
    assert_eq!(Error::extraction("x").message(), "extraction failed: x");
    assert_eq!(Error::install("x").message(), "installation failed: x");
    assert_eq!(Error::id_resolution("x").message(), "could not resolve content id for: x");
    assert_eq!(Error::config("x").message(), "config error: x");
    assert_eq!(Error::InvalidVersion("x".into()).message(), "invalid version: x");
    assert_eq!(Error::download("x").message(), "download failed: x");
    assert_eq!(
        Error::checksum("abc", "def").message(),
        "checksum mismatch: expected abc, got def"
    );
    assert_eq!(Error::MetadataNotFound.message(), "metadata not found in package");
    assert_eq!(Error::backup("x").message(), "backup failed: x");
    assert_eq!(Error::restart("x").message(), "restart failed: x");
    assert_eq!(Error::other("x").message(), "x");
    assert_eq!(Error::RequiresSudo.message(), "system operations require root privileges");
    assert_eq!(Error::SudoWithoutSystem.message(), "running as root requires --system flag");
    assert_eq!(Error::NoUpdatesAvailable.message(), "no updates available");
}
