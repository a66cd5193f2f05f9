use healthchecks::config::{create_config, create_config_with_user_agent, HealthcheckConfig};
use healthchecks::delivery::Outcome;
use healthchecks::identifier::is_uuid;
use healthchecks::request::Method;

const CHECK: &str = "2d0a34bd-854d-490e-be2c-1493f7053460";

#[test]
fn config_reports_to_the_hosted_service() {
    assert!(is_uuid(CHECK));
    let config = create_config(CHECK.to_string());
    assert_eq!(config.uuid(), CHECK);
    let request = config.report_success();
    assert_eq!(request.method, Method::Get);
    assert_eq!(request.url, "https://hc-ping.com/2d0a34bd-854d-490e-be2c-1493f7053460");
    assert_eq!(request.user_agent, "healthchecks-rs/3.2.0");
    assert_eq!(request.body, None);
    assert_eq!(
        config.report_failure().url,
        "https://hc-ping.com/2d0a34bd-854d-490e-be2c-1493f7053460/fail"
    );
    assert_eq!(
        config.start_timer().url,
        "https://hc-ping.com/2d0a34bd-854d-490e-be2c-1493f7053460/start"
    );
}

#[test]
fn config_sends_the_user_agent_it_was_given() {
    assert!(is_uuid(CHECK));
    let config = create_config_with_user_agent(
        CHECK.to_string(),
        "healthchecks-rs/simple_client".to_string(),
    );
    for request in [config.report_success(), config.report_failure(), config.start_timer()] {
        assert_eq!(request.user_agent, "healthchecks-rs/simple_client");
        assert_eq!(request.method, Method::Get);
    }
}

#[test]
fn only_status_200_counts_for_a_single_attempt() {
    assert!(HealthcheckConfig::succeeded(Outcome::Status(200)));
    for code in [0u16, 199, 201, 204, 299, 300, 404, 500] {
        assert!(!HealthcheckConfig::succeeded(Outcome::Status(code)), "{code}");
    }
    assert!(!HealthcheckConfig::succeeded(Outcome::TransportError));
}
