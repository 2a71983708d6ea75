use cooler_alerts::hypernative::credential::{AccessToken, CLOCK_LIMIT_MILLIS};
use cooler_alerts::hypernative::{
    build_channels, build_request_body, creation_outcome, deletion_outcome, is_server_error,
    is_success, login_outcome, threshold_seconds, whole_days, AlertPolicy, ApiError, ChannelConfiguration,
    ChannelType, Configuration, CustomAgentResponse, ErrorKind, HttpReply, LoginResponse,
    RequestResponse, ResponseData, Severity, State, MAX_THRESHOLD_DAYS,
};

const COOLER: &str = "0x2222222222222222222222222222222222222222";

fn target() -> Vec<String> {
    vec![COOLER.to_string(), "17".to_string()]
}

fn agent(id: i64) -> CustomAgentResponse {
    let body = build_request_body(target(), 432000, None, None).unwrap();
    CustomAgentResponse { id, rule: body.rule, alert_policies: vec![AlertPolicy { channels_configurations: Vec::new() }] }
}

fn login_reply(token: &str) -> HttpReply {
    HttpReply::Response {
        status: 200,
        body: Some(RequestResponse { data: ResponseData::Login(LoginResponse { token: token.to_string() }) }),
    }
}

fn agent_reply(status: u16, id: i64) -> HttpReply {
    HttpReply::Response {
        status,
        body: Some(RequestResponse { data: ResponseData::CustomAgent(agent(id)) }),
    }
}

#[test]
fn request_body_of_a_target() {
    let body = build_request_body(
        target(),
        432000,
        Some("a@b.c".to_string()),
        Some("https://hook".to_string()),
    )
    .unwrap();
    assert_eq!(body.agent_type, "genericNodeQuery");
    assert_eq!(body.agent_name, "COOLER ALERTS");
    assert_eq!(body.severity, Severity::Medium);
    assert_eq!(body.mute_duration, 0);
    assert_eq!(body.state, State::Disabled);
    assert_eq!(body.delay, 50000);
    assert!(body.reminders_configurations.is_empty());
    let rule = &body.rule;
    assert_eq!(rule.chain, "ethereum");
    assert_eq!(rule.input, target());
    assert_eq!(rule.func_sig, "timeToExpiry(address cooler_, uint256 id_)");
    assert_eq!(rule.file_name, "");
    assert_eq!(rule.operands, vec!["432000".to_string()]);
    assert_eq!(rule.operator, "lt");
    assert_eq!(
        rule.rule_string,
        "Cooler (0x2222222222222222222222222222222222222222) Loan (id: 17) expires in less than 5 days"
    );
    assert_eq!(rule.output_index, 0);
    assert_eq!(rule.input_data_type, vec!["address".to_string(), "uint256".to_string()]);
    assert_eq!(rule.output_data_type, vec!["uint256".to_string()]);
    assert_eq!(rule.contract_address, "0xA00F4b7c57a4995796D6E2ae4A6D5dEc8a557367");
    assert_eq!(rule.contract_address_alias, "Cooler Monitoring");
    let function = &rule.contract_function_object;
    assert_eq!(function.name, "timeToExpiry");
    assert_eq!(function.function_type, "function");
    assert_eq!(function.state_mutability, "view");
    assert_eq!(function.inputs.len(), 2);
    assert_eq!(function.inputs[0].name, "cooler_");
    assert_eq!(function.inputs[0].input_type, "address");
    assert_eq!(function.inputs[1].name, "id_");
    assert_eq!(function.inputs[1].input_type, "uint256");
    assert_eq!(function.outputs.len(), 1);
    assert_eq!(function.outputs[0].name, "timeLeft");
    assert_eq!(function.outputs[0].output_type, "uint256");
    assert_eq!(body.channels_configurations.len(), 2);
    assert_eq!(body.channels_configurations[0].channel_type, ChannelType::Email);
    assert!(matches!(&body.channels_configurations[0].configuration,
        Configuration::Email(v) if v == &vec!["a@b.c".to_string()]));
    assert_eq!(body.channels_configurations[1].channel_type, ChannelType::Discord);
    assert!(matches!(&body.channels_configurations[1].configuration,
        Configuration::Webhook(v) if v == &vec!["https://hook".to_string()]));
}

#[test]
fn rule_string_rounds_days_towards_zero() {
    let body = build_request_body(target(), 86399, None, None).unwrap();
    assert!(body.rule.rule_string.ends_with("expires in less than 0 days"));
    assert_eq!(body.rule.operands, vec!["86399".to_string()]);
    let body = build_request_body(target(), -86401, None, None).unwrap();
    assert!(body.rule.rule_string.ends_with("expires in less than -1 days"));
    assert_eq!(body.rule.operands, vec!["-86401".to_string()]);
    assert_eq!(whole_days(172800), 2);
    assert_eq!(whole_days(-1), 0);
    assert_eq!(whole_days(i64::MIN), -106751991167300);
}

#[test]
fn one_channel_for_each_that_is_given() {
    assert!(build_channels(None, None).is_empty());
    let only_mail = build_channels(Some("a@b.c".to_string()), None);
    assert_eq!(only_mail.len(), 1);
    assert_eq!(only_mail[0].channel_type, ChannelType::Email);
    let only_hook = build_channels(None, Some("https://hook".to_string()));
    assert_eq!(only_hook.len(), 1);
    assert_eq!(only_hook[0].channel_type, ChannelType::Discord);
    assert!(matches!(&only_hook[0].configuration,
        Configuration::Webhook(v) if v == &vec!["https://hook".to_string()]));
}

#[test]
fn channel_constructors() {
    let email = ChannelConfiguration::new_email(vec!["a@b.c".to_string(), "d@e.f".to_string()]);
    assert_eq!(email.channel_type, ChannelType::Email);
    assert!(matches!(&email.configuration, Configuration::Email(v) if v.len() == 2 && v[1] == "d@e.f"));
    let discord = ChannelConfiguration::new_discord(vec!["https://d".to_string()]);
    assert_eq!(discord.channel_type, ChannelType::Discord);
    assert!(matches!(&discord.configuration, Configuration::Webhook(v) if v[0] == "https://d"));
    let slack = ChannelConfiguration::new_slack(vec!["https://s".to_string()]);
    assert_eq!(slack.channel_type, ChannelType::Slack);
    assert!(matches!(&slack.configuration, Configuration::Webhook(v) if v[0] == "https://s"));
}

#[test]
fn names_of_channel_types_severities_and_states() {
    assert_eq!(ChannelType::Email.as_str(), "Email");
    assert_eq!(ChannelType::Discord.as_str(), "Discord");
    assert_eq!(ChannelType::Slack.as_str(), "Slack");
    for channel_type in [ChannelType::Email, ChannelType::Discord, ChannelType::Slack] {
        assert_eq!(ChannelType::from_name(channel_type.as_str()), Some(channel_type));
    }
    assert_eq!(ChannelType::from_name("email"), None);
    assert_eq!(ChannelType::from_name(""), None);
    assert_eq!(ChannelType::from_name("Telegram"), None);
    assert_eq!(Severity::High.as_str(), "High");
    assert_eq!(Severity::Medium.as_str(), "Medium");
    assert_eq!(State::Enabled.as_str(), "enabled");
    assert_eq!(State::Disabled.as_str(), "disabled");
}

#[test]
fn threshold_in_seconds() {
    assert_eq!(threshold_seconds(0), 0);
    assert_eq!(threshold_seconds(5), 432000);
    assert_eq!(threshold_seconds(MAX_THRESHOLD_DAYS), 9223372036854720000);
    assert!(MAX_THRESHOLD_DAYS == i64::MAX / 86400);
}

#[test]
fn classes_of_status_codes() {
    assert!(is_success(200));
    assert!(is_success(204));
    assert!(is_success(299));
    assert!(!is_success(199));
    assert!(!is_success(300));
    assert!(is_server_error(500));
    assert!(is_server_error(503));
    assert!(is_server_error(599));
    assert!(!is_server_error(499));
    assert!(!is_server_error(600));
}

#[test]
fn agent_getters() {
    let response = agent(41);
    assert_eq!(*response.agent_id(), 41);
    assert_eq!(response.agent_rules().chain, "ethereum");
    assert_eq!(response.alert_policies().len(), 1);
}

#[test]
fn login_reply_with_a_token() {
    assert_eq!(login_outcome(login_reply("tok-1")).unwrap(), "tok-1");
}

#[test]
fn login_failures() {
    assert_eq!(login_outcome(HttpReply::TransportFailure).unwrap_err(), ApiError::LoginTransport);
    assert_eq!(
        login_outcome(HttpReply::Response { status: 401, body: None }).unwrap_err(),
        ApiError::LoginRejected
    );
    assert_eq!(
        login_outcome(HttpReply::Response { status: 500, body: None }).unwrap_err(),
        ApiError::LoginRejected
    );
    assert_eq!(
        login_outcome(HttpReply::Response { status: 200, body: None }).unwrap_err(),
        ApiError::LoginUnparsable
    );
    assert_eq!(login_outcome(agent_reply(200, 1)).unwrap_err(), ApiError::LoginUnexpected);
}

#[test]
fn creation_reply_with_a_rule() {
    let created = creation_outcome(agent_reply(201, 99)).unwrap().unwrap();
    assert_eq!(created.id, 99);
}

#[test]
fn creation_soft_failures_give_nothing() {
    assert!(creation_outcome(HttpReply::Response { status: 500, body: None }).unwrap().is_none());
    assert!(creation_outcome(HttpReply::Response { status: 503, body: None }).unwrap().is_none());
    assert!(creation_outcome(login_reply("tok")).unwrap().is_none());
}

#[test]
fn creation_failures() {
    assert_eq!(creation_outcome(HttpReply::TransportFailure).unwrap_err(), ApiError::Transport);
    assert_eq!(
        creation_outcome(HttpReply::Response { status: 400, body: None }).unwrap_err(),
        ApiError::Rejected
    );
    assert_eq!(
        creation_outcome(HttpReply::Response { status: 401, body: None }).unwrap_err(),
        ApiError::Rejected
    );
    assert_eq!(
        creation_outcome(HttpReply::Response { status: 302, body: None }).unwrap_err(),
        ApiError::Rejected
    );
    assert_eq!(
        creation_outcome(HttpReply::Response { status: 200, body: None }).unwrap_err(),
        ApiError::Unparsable
    );
}

#[test]
fn deletion_fails_only_without_transmission() {
    assert_eq!(deletion_outcome(HttpReply::TransportFailure).unwrap_err(), ApiError::Transport);
    for status in [200u16, 204, 404, 400, 500] {
        assert!(deletion_outcome(HttpReply::Response { status, body: None }).is_ok());
    }
}

#[test]
fn kinds_and_messages_of_errors() {
    let auth = [
        ApiError::LoginTransport,
        ApiError::LoginRejected,
        ApiError::LoginUnparsable,
        ApiError::LoginUnexpected,
    ];
    for error in auth {
        assert_eq!(error.kind(), ErrorKind::AuthError);
    }
    for error in [ApiError::Transport, ApiError::Rejected, ApiError::Unparsable] {
        assert_eq!(error.kind(), ErrorKind::RegistrationError);
    }
    assert_eq!(ApiError::LoginRejected.message(), "Unable to authenticate in the Hypernative platform!");
    assert_eq!(
        ApiError::LoginUnexpected.message(),
        "Unexpected API Response. Unable to update Hypernative auth token!"
    );
    assert_eq!(ApiError::Rejected.message(), "Request failed!");
    assert_eq!(
        ApiError::LoginTransport.message(),
        "Unable to reach the Hypernative platform to authenticate!"
    );
    assert_eq!(
        ApiError::LoginUnparsable.message(),
        "Unreadable API Response. Unable to update Hypernative auth token!"
    );
    assert_eq!(ApiError::Transport.message(), "Unable to reach the Hypernative platform!");
    assert_eq!(ApiError::Unparsable.message(), "Unreadable API Response!");
}

#[test]
fn credential_starts_expired_and_empty() {
    let credential = AccessToken::new_at(3600, 1_700_000_000_000);
    assert_eq!(credential.token(), "");
    assert_eq!(credential.lifespan_in_seconds(), 3600);
    assert_eq!(credential.expires_at(), 1_699_999_999_000);
    assert!(credential.is_expired_at(1_700_000_000_000));
    assert!(credential.is_expired_at(1_699_999_999_001));
    assert!(!credential.is_expired_at(1_699_999_999_000));
    assert_eq!(credential.authorization(), "Bearer ");
}

#[test]
fn credential_holds_for_its_lifespan_after_a_refresh() {
    let mut credential = AccessToken::new_at(3600, 1_700_000_000_000);
    credential.refresh_at("secret".to_string(), 1_700_000_000_500);
    assert_eq!(credential.token(), "secret");
    assert_eq!(credential.lifespan_in_seconds(), 3600);
    assert_eq!(credential.expires_at(), 1_700_003_600_500);
    assert_eq!(credential.authorization(), "Bearer secret");
    assert!(!credential.is_expired_at(1_700_000_000_500));
    assert!(!credential.is_expired_at(1_700_003_600_500));
    assert!(credential.is_expired_at(1_700_003_600_501));
}

#[test]
fn credential_with_extreme_values_does_not_overflow() {
    let mut credential = AccessToken::new_at(i64::MAX, i64::MIN);
    assert_eq!(credential.expires_at(), i64::MIN as i128 - 1000);
    assert!(credential.is_expired_at(i64::MIN));
    credential.refresh_at("t".to_string(), i64::MAX);
    assert_eq!(credential.expires_at(), i64::MAX as i128 + i64::MAX as i128 * 1000);
    assert!(!credential.is_expired_at(i64::MAX));
    let mut negative = AccessToken::new_at(-5, 0);
    negative.refresh_at("t".to_string(), 10_000);
    assert_eq!(negative.expires_at(), 5_000);
    assert!(negative.is_expired_at(10_000));
}

#[test]
fn credential_reads_the_clock() {
    let mut credential = AccessToken::new(3600);
    assert_eq!(credential.token(), "");
    assert!(credential.is_expired());
    let made = credential.expires_at() + 1000;
    assert!(made > 1_600_000_000_000);
    assert!(made < CLOCK_LIMIT_MILLIS as i128);
    credential.refresh("fresh".to_string());
    assert_eq!(credential.token(), "fresh");
    assert!(!credential.is_expired());
    assert!(credential.expires_at() >= made + 3_600_000);
    assert!(credential.expires_at() < made + 3_600_000 + 60_000);
}

#[test]
fn login_reply_renews_the_credential() {
    let mut credential = AccessToken::new_at(120, 1_000_000);
    assert_eq!(credential.take_login_at(login_reply("abc"), 2_000_000), Ok(()));
    assert_eq!(credential.token(), "abc");
    assert_eq!(credential.expires_at(), 2_120_000);
    assert!(!credential.is_expired_at(2_120_000));
}

#[test]
fn login_reply_without_token_changes_nothing() {
    let mut credential = AccessToken::new_at(120, 1_000_000);
    credential.refresh_at("old".to_string(), 1_000_000);
    assert_eq!(
        credential.take_login_at(HttpReply::Response { status: 401, body: None }, 2_000_000),
        Err(ApiError::LoginRejected)
    );
    assert_eq!(credential.take_login_at(HttpReply::TransportFailure, 2_000_000), Err(ApiError::LoginTransport));
    assert_eq!(credential.take_login_at(agent_reply(200, 3), 2_000_000), Err(ApiError::LoginUnexpected));
    assert_eq!(credential.token(), "old");
    assert_eq!(credential.expires_at(), 1_120_000);
    assert_eq!(credential.take_login(HttpReply::Response { status: 200, body: None }), Err(ApiError::LoginUnparsable));
    assert_eq!(credential.token(), "old");
    assert_eq!(credential.take_login(login_reply("new")), Ok(()));
    assert_eq!(credential.token(), "new");
    assert!(!credential.is_expired());
}
