//! One call to the rule engine, step by step: whether a login has to come
//! first, which request is sent, and what its reply means. The caller sends
//! each request and hands back the reply.

use vstd::prelude::*;
use vstd::string::*;
use crate::hypernative::credential::{clock_reading, AccessToken, CredentialView};
use crate::hypernative::{
    creation_outcome, deletion_outcome, spec_creation_outcome,
    spec_deletion_outcome, spec_login_outcome, spec_request_body, request_body, threshold_seconds, ApiError,
    CustomAgentResponse, HttpReply, RequestBody, RequestBodyView, MAX_THRESHOLD_DAYS,
};
use crate::text::{decimal_i64, decimal_int, option_view};

verus! {

/// What is asked of the rule engine.
#[derive(Debug)]
pub enum Operation {
    /// Register the rule of this request.
    Register(RequestBody),
    /// Remove the rule with this identifier.
    Deregister(i64),
}

pub enum OperationView {
    Register(RequestBodyView),
    Deregister(int),
}

impl View for Operation {
    type V = OperationView;

    open spec fn view(&self) -> OperationView {
        match self {
            Operation::Register(body) => OperationView::Register(body@),
            Operation::Deregister(id) => OperationView::Deregister(*id as int),
        }
    }
}

/// The registration of the rule for a target: the loan `loan_id` of the
/// contract `cooler`, watched `threshold_days` days ahead of its expiry,
/// with one channel for each of `email` and `webhook` that is given.
pub fn register(
    cooler: &str,
    loan_id: i64,
    threshold_days: i64,
    email: Option<String>,
    webhook: Option<String>,
) -> (r: Operation)
    requires
        0 <= threshold_days <= MAX_THRESHOLD_DAYS,
    ensures
        r@ == OperationView::Register(
            spec_request_body(
                seq![cooler@, decimal_int(loan_id as int)],
                threshold_days * 86400,
                option_view(email),
                option_view(webhook),
            ),
        ),
{
    let mut input: Vec<String> = Vec::new();
    input.push(cooler.to_owned());
    input.push(decimal_i64(loan_id));
    assert(crate::text::strings_view(input@) =~= seq![cooler@, decimal_int(loan_id as int)]);
    Operation::Register(request_body(input, threshold_seconds(threshold_days), email, webhook))
}

/// The removal of the rule with the identifier `rule_id`.
pub fn deregister(rule_id: i64) -> (r: Operation)
    ensures
        r@ == OperationView::Deregister(rule_id as int),
{
    Operation::Deregister(rule_id)
}

/// A request to send to the rule engine.
#[derive(Debug)]
pub enum ApiRequest {
    /// `POST` the configured credentials to `url`.
    Login { url: String },
    /// `POST` the rule in `body` to `url`, with the `Authorization` header.
    CreateAgent { url: String, authorization: String, body: RequestBody },
    /// `DELETE` the rule at `url`, with the `Authorization` header.
    DeleteAgent { url: String, authorization: String },
}

pub enum ApiRequestView {
    Login { url: Seq<char> },
    CreateAgent { url: Seq<char>, authorization: Seq<char>, body: RequestBodyView },
    DeleteAgent { url: Seq<char>, authorization: Seq<char> },
}

impl View for ApiRequest {
    type V = ApiRequestView;

    open spec fn view(&self) -> ApiRequestView {
        match self {
            ApiRequest::Login { url } => ApiRequestView::Login { url: url@ },
            ApiRequest::CreateAgent { url, authorization, body } => ApiRequestView::CreateAgent {
                url: url@,
                authorization: authorization@,
                body: body@,
            },
            ApiRequest::DeleteAgent { url, authorization } => ApiRequestView::DeleteAgent {
                url: url@,
                authorization: authorization@,
            },
        }
    }
}

/// How a call ended.
#[derive(Debug)]
pub enum Outcome {
    /// The rule engine registered the rule and returned it.
    Registered(CustomAgentResponse),
    /// The rule engine registered nothing and reported no fault of the
    /// request: the rule may exist already.
    NotRegistered,
    /// The removal was transmitted.
    Deregistered,
    /// The call failed.
    Failed(ApiError),
}

/// A call that waits for a reply.
#[derive(Debug)]
pub enum ApiCall {
    /// The login is on its way; the operation follows it.
    AwaitingLogin(Operation),
    /// The registration is on its way.
    AwaitingCreation,
    /// The removal is on its way.
    AwaitingDeletion,
}

pub enum ApiCallView {
    AwaitingLogin(OperationView),
    AwaitingCreation,
    AwaitingDeletion,
}

impl View for ApiCall {
    type V = ApiCallView;

    open spec fn view(&self) -> ApiCallView {
        match self {
            ApiCall::AwaitingLogin(operation) => ApiCallView::AwaitingLogin(operation@),
            ApiCall::AwaitingCreation => ApiCallView::AwaitingCreation,
            ApiCall::AwaitingDeletion => ApiCallView::AwaitingDeletion,
        }
    }
}

/// What follows a reply: one more request, or the end of the call.
#[derive(Debug)]
pub enum Step {
    Send(ApiCall, ApiRequest),
    Done(Outcome),
}

pub enum StepView {
    Send(ApiCallView, ApiRequestView),
    Done(Outcome),
}

impl View for Step {
    type V = StepView;

    open spec fn view(&self) -> StepView {
        match self {
            Step::Send(call, request) => StepView::Send(call@, request@),
            Step::Done(outcome) => StepView::Done(*outcome),
        }
    }
}

pub open spec fn spec_login_url() -> Seq<char> {
    "https://api.hypernative.xyz/auth/login"@
}

pub open spec fn spec_agents_url() -> Seq<char> {
    "https://api.hypernative.xyz/custom-agents"@
}

/// The address of the rule with the identifier `id`.
pub open spec fn spec_agent_url(id: int) -> Seq<char> {
    "https://api.hypernative.xyz/custom-agents/"@ + decimal_int(id)
}

/// The request that carries out an operation under a credential, with the
/// call that waits for its reply.
pub open spec fn spec_dispatch(operation: OperationView, credential: CredentialView) -> (
    ApiCallView,
    ApiRequestView,
) {
    match operation {
        OperationView::Register(body) => (
            ApiCallView::AwaitingCreation,
            ApiRequestView::CreateAgent {
                url: spec_agents_url(),
                authorization: credential.authorization(),
                body: body,
            },
        ),
        OperationView::Deregister(id) => (
            ApiCallView::AwaitingDeletion,
            ApiRequestView::DeleteAgent {
                url: spec_agent_url(id),
                authorization: credential.authorization(),
            },
        ),
    }
}

/// The first request of a call at the moment `now`: a login where the
/// credential is expired, else the operation's own request.
pub open spec fn spec_begin(operation: OperationView, credential: CredentialView, now: int) -> (
    ApiCallView,
    ApiRequestView,
) {
    if credential.expired_at(now) {
        (ApiCallView::AwaitingLogin(operation), ApiRequestView::Login { url: spec_login_url() })
    } else {
        spec_dispatch(operation, credential)
    }
}

/// How a registration ended, by what its reply means.
pub open spec fn spec_registration_end(reply: HttpReply) -> Outcome {
    match spec_creation_outcome(reply) {
        Ok(Some(agent)) => Outcome::Registered(agent),
        Ok(None) => Outcome::NotRegistered,
        Err(error) => Outcome::Failed(error),
    }
}

/// How a removal ended, by what its reply means.
pub open spec fn spec_removal_end(reply: HttpReply) -> Outcome {
    match spec_deletion_outcome(reply) {
        Ok(_) => Outcome::Deregistered,
        Err(error) => Outcome::Failed(error),
    }
}

/// What a reply that arrives at the moment `now` leads to, and the
/// credential after it. A login that gives a token renews the credential,
/// and the operation's request follows under the new token; a login that
/// gives none ends the call and leaves the credential as it was. The reply
/// to the operation's own request ends the call.
pub open spec fn spec_on_reply(
    call: ApiCallView,
    credential: CredentialView,
    reply: HttpReply,
    now: int,
) -> (StepView, CredentialView) {
    match call {
        ApiCallView::AwaitingLogin(operation) => match spec_login_outcome(reply) {
            Ok(token) => {
                let renewed = credential.refreshed_at(token@, now);
                let (next, request) = spec_dispatch(operation, renewed);
                (StepView::Send(next, request), renewed)
            },
            Err(error) => (StepView::Done(Outcome::Failed(error)), credential),
        },
        ApiCallView::AwaitingCreation => (StepView::Done(spec_registration_end(reply)), credential),
        ApiCallView::AwaitingDeletion => (StepView::Done(spec_removal_end(reply)), credential),
    }
}

fn dispatch(operation: Operation, access_token: &AccessToken) -> (r: (ApiCall, ApiRequest))
    ensures
        (r.0@, r.1@) == spec_dispatch(operation@, access_token@),
{
    match operation {
        Operation::Register(body) => (
            ApiCall::AwaitingCreation,
            ApiRequest::CreateAgent {
                url: "https://api.hypernative.xyz/custom-agents".to_owned(),
                authorization: access_token.authorization(),
                body,
            },
        ),
        Operation::Deregister(id) => {
            let mut url = "https://api.hypernative.xyz/custom-agents/".to_owned();
            let number = decimal_i64(id);
            url.append(number.as_str());
            (
                ApiCall::AwaitingDeletion,
                ApiRequest::DeleteAgent { url, authorization: access_token.authorization() },
            )
        },
    }
}

impl ApiCall {
    /// Starts a call at the moment `now`. The credential is checked first:
    /// where it is expired the login is the first request, and the
    /// operation waits for its reply.
    pub fn begin_at(operation: Operation, access_token: &AccessToken, now: i64) -> (r: (
        ApiCall,
        ApiRequest,
    ))
        ensures
            (r.0@, r.1@) == spec_begin(operation@, access_token@, now as int),
            r.1@ is Login <==> access_token@.expired_at(now as int),
    {
        if access_token.is_expired_at(now) {
            (
                ApiCall::AwaitingLogin(operation),
                ApiRequest::Login { url: "https://api.hypernative.xyz/auth/login".to_owned() },
            )
        } else {
            dispatch(operation, access_token)
        }
    }

    /// Starts a call now. Whatever the clock reads, the call starts as
    /// `begin_at` starts it at that reading.
    pub fn begin(operation: Operation, access_token: &AccessToken) -> (r: (ApiCall, ApiRequest))
        ensures
            exists|now: int|
                clock_reading(now) && (r.0@, r.1@) == #[trigger] spec_begin(
                    operation@,
                    access_token@,
                    now,
                ),
    {
        let now = crate::hypernative::credential::now_millis();
        let r = Self::begin_at(operation, access_token, now);
        assert(clock_reading(now as int) && (r.0@, r.1@) == spec_begin(
            operation@,
            access_token@,
            now as int,
        ));
        r
    }

    /// Takes the reply to the request that is on its way, at the moment
    /// `now`.
    pub fn on_reply_at(self, access_token: &mut AccessToken, reply: HttpReply, now: i64) -> (r:
        Step)
        ensures
            (r@, final(access_token)@) == spec_on_reply(
                self@,
                old(access_token)@,
                reply,
                now as int,
            ),
    {
        match self {
            ApiCall::AwaitingLogin(operation) => match access_token.take_login_at(reply, now) {
                Ok(_) => {
                    let (next, request) = dispatch(operation, access_token);
                    Step::Send(next, request)
                },
                Err(error) => Step::Done(Outcome::Failed(error)),
            },
            ApiCall::AwaitingCreation => match creation_outcome(reply) {
                Ok(Some(agent)) => Step::Done(Outcome::Registered(agent)),
                Ok(None) => Step::Done(Outcome::NotRegistered),
                Err(error) => Step::Done(Outcome::Failed(error)),
            },
            ApiCall::AwaitingDeletion => match deletion_outcome(reply) {
                Ok(_) => Step::Done(Outcome::Deregistered),
                Err(error) => Step::Done(Outcome::Failed(error)),
            },
        }
    }

    /// Takes the reply to the request that is on its way, now. Whatever the
    /// clock reads, the reply is taken as `on_reply_at` takes it at that
    /// reading.
    pub fn on_reply(self, access_token: &mut AccessToken, reply: HttpReply) -> (r: Step)
        ensures
            exists|now: int|
                clock_reading(now) && (r@, final(access_token)@) == #[trigger] spec_on_reply(
                    self@,
                    old(access_token)@,
                    reply,
                    now,
                ),
    {
        let now = crate::hypernative::credential::now_millis();
        let r = self.on_reply_at(access_token, reply, now);
        assert(clock_reading(now as int) && (r@, access_token@) == spec_on_reply(
            self@,
            old(access_token)@,
            reply,
            now as int,
        ));
        r
    }
}

/// One login serves every call of its window. A call that finds the
/// credential expired logs in first. When that login, made at the moment
/// `now`, gave a token, a call that starts before the lifespan is over, be
/// it at the same moment, starts with its own request, under that token,
/// and asks for no second login.
pub proof fn lemma_one_login_per_window(
    first: OperationView,
    second: OperationView,
    credential: CredentialView,
    reply: HttpReply,
    now: int,
    later: int,
)
    requires
        credential.lifespan_in_seconds >= 0,
        spec_login_outcome(reply) is Ok,
        now <= later <= now + credential.lifespan_in_seconds * 1000,
    ensures
        ({
            let renewed = spec_on_reply(ApiCallView::AwaitingLogin(first), credential, reply, now).1;
            &&& credential.expired_at(now) ==> spec_begin(first, credential, now).1 is Login
            &&& renewed.token == spec_login_outcome(reply)->Ok_0@
            &&& spec_begin(second, renewed, later) == spec_dispatch(second, renewed)
            &&& !(spec_begin(second, renewed, later).1 is Login)
        }),
{
}

/// A login that gives no token ends the call with an authentication error
/// and leaves the credential untouched.
pub proof fn lemma_failed_login_ends_call(
    operation: OperationView,
    credential: CredentialView,
    reply: HttpReply,
    now: int,
)
    requires
        spec_login_outcome(reply) is Err,
    ensures
        ({
            let (step, after) = spec_on_reply(
                ApiCallView::AwaitingLogin(operation),
                credential,
                reply,
                now,
            );
            &&& after == credential
            &&& step == StepView::Done(Outcome::Failed(spec_login_outcome(reply)->Err_0))
            &&& spec_login_outcome(reply)->Err_0.spec_kind() == crate::hypernative::ErrorKind::AuthError
        }),
{
}

/// The rules a rule engine holds once it has carried out a request, given
/// those it held before, by their identifiers: a removal takes away the
/// rule at the address that is named, and no other request takes one away.
pub open spec fn spec_rules_after(rules: Set<int>, request: ApiRequestView) -> Set<int> {
    match request {
        ApiRequestView::DeleteAgent { url, .. } => Set::new(
            |id: int| rules.contains(id) && spec_agent_url(id) != url,
        ),
        _ => rules,
    }
}

/// A rule that is registered and removed again is gone. When the
/// registration is answered with the new rule, the call ends with that
/// rule; the removal of its identifier then asks for the deletion at the
/// address of that very rule, ends well once it is transmitted, and a rule
/// engine that removes what it is asked to remove holds no rule with that
/// identifier afterwards.
pub proof fn lemma_register_then_deregister(
    rules: Set<int>,
    body: RequestBodyView,
    credential: CredentialView,
    agent: CustomAgentResponse,
    create_reply: HttpReply,
    delete_reply: HttpReply,
    now: int,
    later: int,
)
    requires
        !credential.expired_at(now),
        !credential.expired_at(later),
        spec_creation_outcome(create_reply) == Ok::<Option<CustomAgentResponse>, ApiError>(
            Some(agent),
        ),
        !(delete_reply is TransportFailure),
    ensures
        ({
            let (creating, create) = spec_begin(OperationView::Register(body), credential, now);
            let (removing, remove) = spec_begin(
                OperationView::Deregister(agent.id as int),
                credential,
                later,
            );
            &&& create == (ApiRequestView::CreateAgent {
                url: spec_agents_url(),
                authorization: credential.authorization(),
                body: body,
            })
            &&& spec_on_reply(creating, credential, create_reply, now).0 == StepView::Done(
                Outcome::Registered(agent),
            )
            &&& remove == (ApiRequestView::DeleteAgent {
                url: spec_agent_url(agent.id as int),
                authorization: credential.authorization(),
            })
            &&& spec_on_reply(removing, credential, delete_reply, later).0 == StepView::Done(
                Outcome::Deregistered,
            )
            &&& !spec_rules_after(rules.insert(agent.id as int), remove).contains(agent.id as int)
        }),
{
}

/// A removal fails only where its request was not transmitted.
pub proof fn lemma_removal_fails_only_on_transport(reply: HttpReply)
    ensures
        spec_removal_end(reply) is Failed <==> reply is TransportFailure,
        !(reply is TransportFailure) ==> spec_removal_end(reply) == Outcome::Deregistered,
{
}

/// A server error in reply to a registration is no failure of the call: it
/// ends with nothing registered.
pub proof fn lemma_server_error_registers_nothing(status: u16, body: Option<
    crate::hypernative::RequestResponse,
>)
    requires
        crate::hypernative::spec_is_server_error(status),
    ensures
        spec_registration_end(HttpReply::Response { status, body }) == Outcome::NotRegistered,
{
}

} // verus!
