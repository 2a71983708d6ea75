use cooler_alerts::hypernative::client::{
    deregister, register, ApiCall, ApiRequest, Operation, Outcome, Step,
};
use cooler_alerts::hypernative::credential::AccessToken;
use cooler_alerts::hypernative::{
    AlertPolicy, ApiError, ChannelType, CustomAgentResponse, ErrorKind, HttpReply, LoginResponse,
    RequestBody, RequestResponse, ResponseData,
};

const COOLER: &str = "0x3333333333333333333333333333333333333333";
const NOW: i64 = 1_700_000_000_000;

/// A stand-in for the rule engine: it counts the logins and keeps the rules
/// that are registered.
struct Provider {
    logins: usize,
    next_id: i64,
    rules: Vec<(i64, String)>,
    requests: Vec<String>,
}

impl Provider {
    fn new() -> Provider {
        Provider { logins: 0, next_id: 500, rules: Vec::new(), requests: Vec::new() }
    }

    fn answer(&mut self, request: ApiRequest) -> HttpReply {
        match request {
            ApiRequest::Login { url } => {
                assert_eq!(url, "https://api.hypernative.xyz/auth/login");
                self.logins += 1;
                self.requests.push("login".to_string());
                HttpReply::Response {
                    status: 200,
                    body: Some(RequestResponse {
                        data: ResponseData::Login(LoginResponse { token: format!("token-{}", self.logins) }),
                    }),
                }
            }
            ApiRequest::CreateAgent { url, authorization, body } => {
                assert_eq!(url, "https://api.hypernative.xyz/custom-agents");
                self.requests.push(format!("create with {}", authorization));
                let id = self.next_id;
                self.next_id += 1;
                self.rules.push((id, body.rule.rule_string.clone()));
                let RequestBody { rule, .. } = body;
                HttpReply::Response {
                    status: 201,
                    body: Some(RequestResponse {
                        data: ResponseData::CustomAgent(CustomAgentResponse {
                            id,
                            rule,
                            alert_policies: vec![AlertPolicy { channels_configurations: Vec::new() }],
                        }),
                    }),
                }
            }
            ApiRequest::DeleteAgent { url, authorization } => {
                self.requests.push(format!("delete {} with {}", url, authorization));
                let prefix = "https://api.hypernative.xyz/custom-agents/";
                assert!(url.starts_with(prefix));
                let id: i64 = url[prefix.len()..].parse().unwrap();
                let before = self.rules.len();
                self.rules.retain(|(rule_id, _)| *rule_id != id);
                let status = if self.rules.len() < before { 200 } else { 404 };
                HttpReply::Response { status, body: None }
            }
        }
    }
}

fn run(provider: &mut Provider, credential: &mut AccessToken, operation: Operation, now: i64) -> Outcome {
    let (mut call, mut request) = ApiCall::begin_at(operation, credential, now);
    loop {
        let reply = provider.answer(request);
        match call.on_reply_at(credential, reply, now) {
            Step::Send(next, following) => {
                call = next;
                request = following;
            }
            Step::Done(outcome) => return outcome,
        }
    }
}

#[test]
fn registration_describes_the_target() {
    let operation = register(COOLER, 8, 5, Some("a@b.c".to_string()), None);
    match operation {
        Operation::Register(body) => {
            assert_eq!(body.rule.input, vec![COOLER.to_string(), "8".to_string()]);
            assert_eq!(body.rule.operands, vec!["432000".to_string()]);
            assert_eq!(
                body.rule.rule_string,
                "Cooler (0x3333333333333333333333333333333333333333) Loan (id: 8) expires in less than 5 days"
            );
            assert_eq!(body.channels_configurations.len(), 1);
            assert_eq!(body.channels_configurations[0].channel_type, ChannelType::Email);
        }
        Operation::Deregister(_) => panic!("a registration was asked for"),
    }
    assert!(matches!(deregister(12), Operation::Deregister(12)));
}

#[test]
fn expired_credential_logs_in_first() {
    let credential = AccessToken::new_at(3600, NOW);
    let (call, request) = ApiCall::begin_at(deregister(4), &credential, NOW);
    assert!(matches!(call, ApiCall::AwaitingLogin(Operation::Deregister(4))));
    assert!(matches!(request, ApiRequest::Login { .. }));
}

#[test]
fn valid_credential_sends_the_request_at_once() {
    let mut credential = AccessToken::new_at(3600, NOW);
    credential.refresh_at("abc".to_string(), NOW);
    let (call, request) = ApiCall::begin_at(deregister(4), &credential, NOW + 1000);
    assert!(matches!(call, ApiCall::AwaitingDeletion));
    match request {
        ApiRequest::DeleteAgent { url, authorization } => {
            assert_eq!(url, "https://api.hypernative.xyz/custom-agents/4");
            assert_eq!(authorization, "Bearer abc");
        }
        _ => panic!("the removal was to be sent"),
    }
    let (call, request) = ApiCall::begin_at(register(COOLER, 1, 2, None, None), &credential, NOW + 1000);
    assert!(matches!(call, ApiCall::AwaitingCreation));
    match request {
        ApiRequest::CreateAgent { url, authorization, body } => {
            assert_eq!(url, "https://api.hypernative.xyz/custom-agents");
            assert_eq!(authorization, "Bearer abc");
            assert_eq!(body.rule.operands, vec!["172800".to_string()]);
        }
        _ => panic!("the registration was to be sent"),
    }
}

#[test]
fn login_renews_the_credential_and_the_request_follows() {
    let mut credential = AccessToken::new_at(60, NOW);
    let (call, _) = ApiCall::begin_at(deregister(-7), &credential, NOW);
    let reply = HttpReply::Response {
        status: 200,
        body: Some(RequestResponse { data: ResponseData::Login(LoginResponse { token: "xyz".to_string() }) }),
    };
    match call.on_reply_at(&mut credential, reply, NOW + 250) {
        Step::Send(next, ApiRequest::DeleteAgent { url, authorization }) => {
            assert!(matches!(next, ApiCall::AwaitingDeletion));
            assert_eq!(url, "https://api.hypernative.xyz/custom-agents/-7");
            assert_eq!(authorization, "Bearer xyz");
        }
        _ => panic!("the removal was to follow the login"),
    }
    assert_eq!(credential.token(), "xyz");
    assert_eq!(credential.expires_at(), (NOW + 250 + 60_000) as i128);
}

#[test]
fn failed_login_ends_the_call_and_keeps_the_credential() {
    let replies = [
        (HttpReply::TransportFailure, ApiError::LoginTransport),
        (HttpReply::Response { status: 403, body: None }, ApiError::LoginRejected),
        (HttpReply::Response { status: 200, body: None }, ApiError::LoginUnparsable),
    ];
    for (reply, expected) in replies {
        let mut credential = AccessToken::new_at(60, NOW);
        let (call, _) = ApiCall::begin_at(deregister(1), &credential, NOW);
        match call.on_reply_at(&mut credential, reply, NOW) {
            Step::Done(Outcome::Failed(error)) => {
                assert_eq!(error, expected);
                assert_eq!(error.kind(), ErrorKind::AuthError);
            }
            _ => panic!("the call was to fail"),
        }
        assert_eq!(credential.token(), "");
        assert_eq!(credential.expires_at(), (NOW - 1000) as i128);
    }
}

#[test]
fn replies_to_a_registration() {
    let mut credential = AccessToken::new_at(60, NOW);
    let step = ApiCall::AwaitingCreation.on_reply_at(
        &mut credential,
        HttpReply::Response { status: 502, body: None },
        NOW,
    );
    assert!(matches!(step, Step::Done(Outcome::NotRegistered)));
    let step = ApiCall::AwaitingCreation.on_reply_at(
        &mut credential,
        HttpReply::Response { status: 422, body: None },
        NOW,
    );
    assert!(matches!(step, Step::Done(Outcome::Failed(ApiError::Rejected))));
    let step = ApiCall::AwaitingCreation.on_reply_at(&mut credential, HttpReply::TransportFailure, NOW);
    assert!(matches!(step, Step::Done(Outcome::Failed(ApiError::Transport))));
    assert_eq!(credential.expires_at(), (NOW - 1000) as i128);
}

#[test]
fn replies_to_a_removal() {
    let mut credential = AccessToken::new_at(60, NOW);
    for status in [200u16, 404, 500] {
        let step = ApiCall::AwaitingDeletion.on_reply_at(
            &mut credential,
            HttpReply::Response { status, body: None },
            NOW,
        );
        assert!(matches!(step, Step::Done(Outcome::Deregistered)));
    }
    let step = ApiCall::AwaitingDeletion.on_reply_at(&mut credential, HttpReply::TransportFailure, NOW);
    assert!(matches!(step, Step::Done(Outcome::Failed(ApiError::Transport))));
}

#[test]
fn one_login_serves_the_calls_of_its_window() {
    let mut provider = Provider::new();
    let mut credential = AccessToken::new_at(3600, NOW);
    let first = run(&mut provider, &mut credential, register(COOLER, 1, 5, None, Some("https://h".to_string())), NOW);
    assert!(matches!(first, Outcome::Registered(_)));
    let second = run(&mut provider, &mut credential, register(COOLER, 2, 5, None, Some("https://h".to_string())), NOW);
    assert!(matches!(second, Outcome::Registered(_)));
    let third = run(&mut provider, &mut credential, deregister(500), NOW + 3_600_000);
    assert!(matches!(third, Outcome::Deregistered));
    assert_eq!(provider.logins, 1);
    assert_eq!(
        provider.requests,
        vec![
            "login".to_string(),
            "create with Bearer token-1".to_string(),
            "create with Bearer token-1".to_string(),
            "delete https://api.hypernative.xyz/custom-agents/500 with Bearer token-1".to_string(),
        ]
    );
    let late = run(&mut provider, &mut credential, deregister(501), NOW + 3_600_001);
    assert!(matches!(late, Outcome::Deregistered));
    assert_eq!(provider.logins, 2);
    assert_eq!(credential.token(), "token-2");
}

#[test]
fn registration_followed_by_removal_leaves_no_rule() {
    let mut provider = Provider::new();
    let mut credential = AccessToken::new_at(3600, NOW);
    let outcome = run(
        &mut provider,
        &mut credential,
        register(COOLER, 21, 5, Some("a@b.c".to_string()), Some("https://h".to_string())),
        NOW,
    );
    let rule_id = match outcome {
        Outcome::Registered(response) => *response.agent_id(),
        _ => panic!("the rule was to be registered"),
    };
    assert_eq!(provider.rules.len(), 1);
    assert_eq!(provider.rules[0].0, rule_id);
    let outcome = run(&mut provider, &mut credential, deregister(rule_id), NOW + 1);
    assert!(matches!(outcome, Outcome::Deregistered));
    assert!(provider.rules.is_empty());
}

#[test]
fn calls_that_read_the_clock() {
    let mut provider = Provider::new();
    let mut credential = AccessToken::new(3600);
    let (call, request) = ApiCall::begin(deregister(3), &credential);
    assert!(matches!(request, ApiRequest::Login { .. }));
    let reply = provider.answer(request);
    let (call, request) = match call.on_reply(&mut credential, reply) {
        Step::Send(call, request) => (call, request),
        Step::Done(_) => panic!("the removal was to follow the login"),
    };
    assert!(!credential.is_expired());
    let reply = provider.answer(request);
    assert!(matches!(call.on_reply(&mut credential, reply), Step::Done(Outcome::Deregistered)));
    let (call, request) = ApiCall::begin(deregister(4), &credential);
    assert!(matches!(call, ApiCall::AwaitingDeletion));
    assert!(matches!(request, ApiRequest::DeleteAgent { .. }));
    assert_eq!(provider.logins, 1);
}
