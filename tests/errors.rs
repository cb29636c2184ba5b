use matchbot_api::error::Error;
use matchbot_api::models::{SeriesType, TeamStats};
use matchbot_api::teardown::TeardownStep;

#[test]
fn status_codes() {
    assert_eq!(Error::UnknownServer.status_code(), 404);
    assert_eq!(Error::UnknownMap.status_code(), 404);
    assert_eq!(Error::AttributionFailed.status_code(), 422);
    assert_eq!(Error::UpstreamHostError.status_code(), 502);
    assert_eq!(Error::IdentityProviderError.status_code(), 502);
    assert_eq!(Error::ArchiveUploadFailed.status_code(), 500);
    assert_eq!(Error::StoreError.status_code(), 500);
    assert_eq!(Error::InvalidEvent.status_code(), 400);
}

#[test]
fn messages_and_retry() {
    assert_eq!(Error::ArchiveUploadFailed.message(), "failed to upload demo to archive");
    assert_eq!(Error::UnknownServer.message(), "no series is bound to this server");
    assert!(Error::StoreError.is_retryable());
    assert!(Error::UpstreamHostError.is_retryable());
    assert!(!Error::UnknownServer.is_retryable());
    assert!(!Error::ArchiveUploadFailed.is_retryable());
}

#[test]
fn teardown_step_kinds() {
    assert_eq!(TeardownStep::FetchServerInfo.error(), Error::UpstreamHostError);
    assert_eq!(TeardownStep::ResolveCredential.error(), Error::IdentityProviderError);
    assert_eq!(TeardownStep::RevokeCredential.error(), Error::IdentityProviderError);
    assert_eq!(TeardownStep::StopServer.error(), Error::UpstreamHostError);
    assert_eq!(TeardownStep::DeleteServer.error(), Error::UpstreamHostError);
}

#[test]
fn series_formats() {
    assert_eq!(SeriesType::from_db_name("bo1"), Some(SeriesType::Bo1));
    assert_eq!(SeriesType::from_db_name("bo3"), Some(SeriesType::Bo3));
    assert_eq!(SeriesType::from_db_name("bo5"), Some(SeriesType::Bo5));
    assert_eq!(SeriesType::from_db_name("Bo3"), None);
    assert_eq!(SeriesType::from_db_name("bo2"), None);
    assert_eq!(SeriesType::from_db_name(""), None);
    assert_eq!(SeriesType::Bo1.total_maps(), 1);
    assert_eq!(SeriesType::Bo3.total_maps(), 3);
    assert_eq!(SeriesType::Bo5.total_maps(), 5);
    assert_eq!(TeamStats { score: 4 }.score, 4);
}
