use healthchecks::errors::{HealthchecksApiError, HealthchecksConfigError};
use healthchecks::model::{Channel, Check, Flip, NewCheck, UpdatedCheck};

fn check_with_ping_url(ping_url: Option<&str>) -> Check {
    Check {
        name: "backup".to_string(),
        tags: "prod".to_string(),
        desc: String::new(),
        grace: 3600,
        n_pings: 12,
        status: "up".to_string(),
        last_ping: None,
        next_ping: None,
        manual_resume: false,
        ping_url: ping_url.map(str::to_string),
        update_url: None,
        pause_url: None,
        channels: None,
        timeout: Some(86400),
        schedule: None,
        tz: None,
        unique_key: None,
    }
}

#[test]
fn id_is_the_last_segment_of_the_ping_url() {
    let check = check_with_ping_url(Some(
        "https://hc-ping.com/2d0a34bd-854d-490e-be2c-1493f7053460",
    ));
    assert_eq!(check.id(), Some("2d0a34bd-854d-490e-be2c-1493f7053460".to_string()));
}

#[test]
fn id_is_missing_without_a_ping_url() {
    assert_eq!(check_with_ping_url(None).id(), None);
}

#[test]
fn id_of_a_url_without_slash_is_the_url() {
    assert_eq!(check_with_ping_url(Some("abc")).id(), Some("abc".to_string()));
}

#[test]
fn id_of_a_url_that_ends_in_a_slash_is_empty() {
    assert_eq!(check_with_ping_url(Some("https://hc-ping.com/abc/")).id(), Some(String::new()));
    assert_eq!(check_with_ping_url(Some("/")).id(), Some(String::new()));
    assert_eq!(check_with_ping_url(Some("")).id(), Some(String::new()));
}

#[test]
fn id_counts_characters_not_bytes() {
    assert_eq!(
        check_with_ping_url(Some("https://ex\u{e4}mple.com/pr\u{fc}fung/\u{1f600}id")).id(),
        Some("\u{1f600}id".to_string())
    );
}

#[test]
fn id_agrees_with_splitting_at_slashes() {
    for url in ["a/b/c", "//", "a//b", "no-slash", "x/", "/x", "https://hc-ping.com/id"] {
        assert_eq!(
            check_with_ping_url(Some(url)).id(),
            url.split('/').last().map(str::to_string),
            "{url:?}"
        );
    }
}

#[test]
fn default_new_check_sets_nothing() {
    let check = NewCheck::default();
    assert!(check.name.is_none());
    assert!(check.tags.is_none());
    assert!(check.desc.is_none());
    assert!(check.timeout.is_none());
    assert!(check.grace.is_none());
    assert!(check.schedule.is_none());
    assert!(check.tz.is_none());
    assert!(check.manual_resume.is_none());
    assert!(check.channels.is_none());
    assert!(check.unique.is_none());
}

#[test]
fn default_updated_check_changes_nothing() {
    let check = UpdatedCheck::default();
    assert!(check.name.is_none());
    assert!(check.tags.is_none());
    assert!(check.desc.is_none());
    assert!(check.timeout.is_none());
    assert!(check.grace.is_none());
    assert!(check.schedule.is_none());
    assert!(check.tz.is_none());
    assert!(check.manual_resume.is_none());
    assert!(check.channels.is_none());
}

#[test]
fn default_fills_the_fields_that_are_not_given() {
    let updated_check = UpdatedCheck {
        name: Some("Updated check".to_string()),
        ..Default::default()
    };
    assert_eq!(updated_check.name, Some("Updated check".to_string()));
    assert!(updated_check.tags.is_none());
    assert!(updated_check.channels.is_none());
}

#[test]
fn models_can_be_cloned() {
    let channel = Channel {
        id: "1".to_string(),
        name: "mail".to_string(),
        kind: "email".to_string(),
    };
    let copy = channel.clone();
    assert_eq!(copy.id, "1");
    assert_eq!(copy.name, "mail");
    assert_eq!(copy.kind, "email");
    let flip = Flip { timestamp: "2021-01-26T14:00:24+00:00".to_string(), up: 1 };
    assert_eq!(flip.clone().up, 1);
}

#[test]
fn config_errors_describe_themselves() {
    assert_eq!(HealthchecksConfigError::EmptyApiKey.message(), "API key must not be empty");
    assert_eq!(
        HealthchecksConfigError::EmptyUserAgent.message(),
        "User Agent must not be empty"
    );
    assert_eq!(HealthchecksConfigError::EmptyApiUrl.message(), "API url must not be empty");
    assert_eq!(
        HealthchecksConfigError::InvalidUuid("abc".to_string()).message(),
        "invalid UUID: abc"
    );
}

#[test]
fn api_errors_describe_themselves() {
    assert_eq!(HealthchecksApiError::InvalidApiKey.message(), "invalid API key");
    assert_eq!(
        HealthchecksApiError::PossibleReadOnlyKey.message(),
        "invalid API key, make sure you're not using a read-only key"
    );
    assert_eq!(HealthchecksApiError::AccessDenied.message(), "access denied");
    assert_eq!(
        HealthchecksApiError::NoCheckFound("abc".to_string()).message(),
        "no check found with id: abc"
    );
    assert_eq!(
        HealthchecksApiError::ExistingCheckMatched.message(),
        "an existing check was matched based on the \"unique\" parameter"
    );
    assert_eq!(
        HealthchecksApiError::NotWellFormed.message(),
        "the request is not well-formed, violates schema, or uses invalid field values"
    );
    assert_eq!(
        HealthchecksApiError::CheckLimitReached.message(),
        "the account's check limit has been reached"
    );
    assert_eq!(
        HealthchecksApiError::TransportError("timed out".to_string()).message(),
        "unexpected transport error: timed out"
    );
    assert_eq!(
        HealthchecksApiError::UnexpectedError("teapot".to_string()).message(),
        "unexpected error: teapot"
    );
    assert_eq!(HealthchecksApiError::Io("eof".to_string()).message(), "unexpected IO error");
    assert_eq!(
        HealthchecksApiError::Json("eof".to_string()).message(),
        "unexpected error while (de)serializing JSON response"
    );
}
