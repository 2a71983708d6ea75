//! The rule engine's side of an alert: the monitoring rule that is registered
//! for it, the replies the engine gives, and what each reply means.

use vstd::prelude::*;
use vstd::string::*;
use crate::text::{decimal_i64, decimal_int, option_view, str_equal, strings_view};

pub mod bulk;
pub mod client;
pub mod credential;

verus! {

/// Seconds in a day: thresholds are configured in days and compared in seconds.
pub const SECONDS_PER_DAY: i64 = 86400;

/// The largest threshold, in days, whose length in seconds fits an `i64`.
pub const MAX_THRESHOLD_DAYS: i64 = 106751991167300;

// -- Errors ---------------------------------------------------------------------------------

/// The two kinds of failure of a call to the rule engine.
#[derive(Debug, Clone, Copy, PartialEq, Eq, Structural)]
pub enum ErrorKind {
    /// The login failed or its reply holds no token.
    AuthError,
    /// The rule engine could not be reached, or refused the request.
    RegistrationError,
}

/// Why a call to the rule engine failed.
#[derive(Debug, Clone, Copy, PartialEq, Eq, Structural)]
pub enum ApiError {
    /// The login request could not be sent or its reply could not be read.
    LoginTransport,
    /// The login was answered with a status outside the success class.
    LoginRejected,
    /// The reply to the login could not be parsed.
    LoginUnparsable,
    /// The reply to the login was parsed but holds no token.
    LoginUnexpected,
    /// The request could not be sent or its reply could not be read.
    Transport,
    /// The request was answered with a client-side failure status.
    Rejected,
    /// The reply to a successful request could not be parsed.
    Unparsable,
}

impl ApiError {
    /// The kind of an error: the four login failures are authentication
    /// errors, the others registration errors.
    pub open spec fn spec_kind(self) -> ErrorKind {
        match self {
            ApiError::LoginTransport => ErrorKind::AuthError,
            ApiError::LoginRejected => ErrorKind::AuthError,
            ApiError::LoginUnparsable => ErrorKind::AuthError,
            ApiError::LoginUnexpected => ErrorKind::AuthError,
            ApiError::Transport => ErrorKind::RegistrationError,
            ApiError::Rejected => ErrorKind::RegistrationError,
            ApiError::Unparsable => ErrorKind::RegistrationError,
        }
    }

    /// The message of an error.
    pub open spec fn spec_message(self) -> Seq<char> {
        match self {
            ApiError::LoginTransport => "Unable to reach the Hypernative platform to authenticate!"@,
            ApiError::LoginRejected => "Unable to authenticate in the Hypernative platform!"@,
            ApiError::LoginUnparsable => "Unreadable API Response. Unable to update Hypernative auth token!"@,
            ApiError::LoginUnexpected => "Unexpected API Response. Unable to update Hypernative auth token!"@,
            ApiError::Transport => "Unable to reach the Hypernative platform!"@,
            ApiError::Rejected => "Request failed!"@,
            ApiError::Unparsable => "Unreadable API Response!"@,
        }
    }

    pub fn kind(&self) -> (r: ErrorKind)
        ensures
            r == self.spec_kind(),
    {
        match self {
            ApiError::LoginTransport => ErrorKind::AuthError,
            ApiError::LoginRejected => ErrorKind::AuthError,
            ApiError::LoginUnparsable => ErrorKind::AuthError,
            ApiError::LoginUnexpected => ErrorKind::AuthError,
            ApiError::Transport => ErrorKind::RegistrationError,
            ApiError::Rejected => ErrorKind::RegistrationError,
            ApiError::Unparsable => ErrorKind::RegistrationError,
        }
    }

    /// The message, as text for a reply or a log line.
    pub fn message(&self) -> (r: String)
        ensures
            r@ == self.spec_message(),
    {
        match self {
            ApiError::LoginTransport => "Unable to reach the Hypernative platform to authenticate!".to_owned(),
            ApiError::LoginRejected => "Unable to authenticate in the Hypernative platform!".to_owned(),
            ApiError::LoginUnparsable => "Unreadable API Response. Unable to update Hypernative auth token!".to_owned(),
            ApiError::LoginUnexpected => "Unexpected API Response. Unable to update Hypernative auth token!".to_owned(),
            ApiError::Transport => "Unable to reach the Hypernative platform!".to_owned(),
            ApiError::Rejected => "Request failed!".to_owned(),
            ApiError::Unparsable => "Unreadable API Response!".to_owned(),
        }
    }
}

// -- Channels -------------------------------------------------------------------------------

/// The kinds of notification channel the rule engine knows.
#[derive(Debug, Clone, Copy, PartialEq, Eq, Structural)]
pub enum ChannelType {
    Email,
    Discord,
    Slack,
}

impl ChannelType {
    /// The name under which the rule engine knows a channel type.
    pub open spec fn spec_name(self) -> Seq<char> {
        match self {
            ChannelType::Email => "Email"@,
            ChannelType::Discord => "Discord"@,
            ChannelType::Slack => "Slack"@,
        }
    }

    /// The channel type of a name, if the name is one of the three.
    pub open spec fn spec_from_name(name: Seq<char>) -> Option<ChannelType> {
        if name == "Email"@ {
            Some(ChannelType::Email)
        } else if name == "Discord"@ {
            Some(ChannelType::Discord)
        } else if name == "Slack"@ {
            Some(ChannelType::Slack)
        } else {
            None
        }
    }

    /// The name written into a request for this channel type.
    pub fn as_str(&self) -> (r: &'static str)
        ensures
            r@ == self.spec_name(),
    {
        match self {
            ChannelType::Email => "Email",
            ChannelType::Discord => "Discord",
            ChannelType::Slack => "Slack",
        }
    }

    /// Reads a channel type from its name; any other text is no channel type.
    pub fn from_name(name: &str) -> (r: Option<ChannelType>)
        ensures
            r == Self::spec_from_name(name@),
    {
        if str_equal(name, "Email") {
            Some(ChannelType::Email)
        } else if str_equal(name, "Discord") {
            Some(ChannelType::Discord)
        } else if str_equal(name, "Slack") {
            Some(ChannelType::Slack)
        } else {
            None
        }
    }
}

/// Every channel type is read back from its own name.
pub proof fn lemma_channel_name_round_trip(channel_type: ChannelType)
    ensures
        ChannelType::spec_from_name(channel_type.spec_name()) == Some(channel_type),
{
    reveal_strlit("Email");
    reveal_strlit("Discord");
    reveal_strlit("Slack");
    assert("Email"@.len() == 5 && "Email"@[0] == 'E');
    assert("Discord"@.len() == 7);
    assert("Slack"@.len() == 5 && "Slack"@[0] == 'S');
}

/// How urgent the rule engine treats a rule.
#[derive(Debug, Clone, Copy, PartialEq, Eq, Structural)]
pub enum Severity {
    High,
    Medium,
}

impl Severity {
    pub open spec fn spec_name(self) -> Seq<char> {
        match self {
            Severity::High => "High"@,
            Severity::Medium => "Medium"@,
        }
    }

    /// The name written into a request for this severity.
    pub fn as_str(&self) -> (r: &'static str)
        ensures
            r@ == self.spec_name(),
    {
        match self {
            Severity::High => "High",
            Severity::Medium => "Medium",
        }
    }
}

/// Whether a rule is switched on at the rule engine.
#[derive(Debug, Clone, Copy, PartialEq, Eq, Structural)]
pub enum State {
    Enabled,
    Disabled,
}

impl State {
    pub open spec fn spec_name(self) -> Seq<char> {
        match self {
            State::Enabled => "enabled"@,
            State::Disabled => "disabled"@,
        }
    }

    /// The name written into a request for this state.
    pub fn as_str(&self) -> (r: &'static str)
        ensures
            r@ == self.spec_name(),
    {
        match self {
            State::Enabled => "enabled",
            State::Disabled => "disabled",
        }
    }
}

/// Where a channel delivers: email addresses, or webhook URLs.
#[derive(Debug)]
pub enum Configuration {
    Email(Vec<String>),
    Webhook(Vec<String>),
}

pub enum ConfigurationView {
    Email(Seq<Seq<char>>),
    Webhook(Seq<Seq<char>>),
}

impl View for Configuration {
    type V = ConfigurationView;

    open spec fn view(&self) -> ConfigurationView {
        match self {
            Configuration::Email(addresses) => ConfigurationView::Email(strings_view(addresses@)),
            Configuration::Webhook(urls) => ConfigurationView::Webhook(strings_view(urls@)),
        }
    }
}

/// One notification channel of a rule.
#[derive(Debug)]
pub struct ChannelConfiguration {
    pub channel_type: ChannelType,
    pub configuration: Configuration,
}

pub struct ChannelConfigurationView {
    pub channel_type: ChannelType,
    pub configuration: ConfigurationView,
}

impl View for ChannelConfiguration {
    type V = ChannelConfigurationView;

    open spec fn view(&self) -> ChannelConfigurationView {
        ChannelConfigurationView {
            channel_type: self.channel_type,
            configuration: self.configuration@,
        }
    }
}

impl ChannelConfiguration {
    /// An email channel that delivers to the given addresses.
    pub fn new_email(email: Vec<String>) -> (r: Self)
        ensures
            r@ == (ChannelConfigurationView {
                channel_type: ChannelType::Email,
                configuration: ConfigurationView::Email(strings_view(email@)),
            }),
    {
        ChannelConfiguration {
            channel_type: ChannelType::Email,
            configuration: Configuration::Email(email),
        }
    }

    /// A Discord channel that delivers to the given webhook URLs.
    pub fn new_discord(url: Vec<String>) -> (r: Self)
        ensures
            r@ == (ChannelConfigurationView {
                channel_type: ChannelType::Discord,
                configuration: ConfigurationView::Webhook(strings_view(url@)),
            }),
    {
        ChannelConfiguration {
            channel_type: ChannelType::Discord,
            configuration: Configuration::Webhook(url),
        }
    }

    /// A Slack channel that delivers to the given webhook URLs.
    pub fn new_slack(url: Vec<String>) -> (r: Self)
        ensures
            r@ == (ChannelConfigurationView {
                channel_type: ChannelType::Slack,
                configuration: ConfigurationView::Webhook(strings_view(url@)),
            }),
    {
        ChannelConfiguration {
            channel_type: ChannelType::Slack,
            configuration: Configuration::Webhook(url),
        }
    }
}

/// The views of a sequence of channels, in order.
pub open spec fn channels_view(channels: Seq<ChannelConfiguration>) -> Seq<ChannelConfigurationView> {
    channels.map_values(|c: ChannelConfiguration| c@)
}

// -- The rule -------------------------------------------------------------------------------

/// One parameter of the contract function a rule calls.
#[derive(Debug)]
pub struct FunctionInput {
    pub name: String,
    pub input_type: String,
}

/// One result of the contract function a rule calls.
#[derive(Debug)]
pub struct FunctionOutput {
    pub name: String,
    pub output_type: String,
}

/// A name with its type, as parameters and results are described.
pub struct TypedNameView {
    pub name: Seq<char>,
    pub kind: Seq<char>,
}

impl View for FunctionInput {
    type V = TypedNameView;

    open spec fn view(&self) -> TypedNameView {
        TypedNameView { name: self.name@, kind: self.input_type@ }
    }
}

impl View for FunctionOutput {
    type V = TypedNameView;

    open spec fn view(&self) -> TypedNameView {
        TypedNameView { name: self.name@, kind: self.output_type@ }
    }
}

/// The contract function a rule calls.
#[derive(Debug)]
pub struct ContractFunction {
    pub name: String,
    pub function_type: String,
    pub inputs: Vec<FunctionInput>,
    pub outputs: Vec<FunctionOutput>,
    pub state_mutability: String,
}

pub struct ContractFunctionView {
    pub name: Seq<char>,
    pub function_type: Seq<char>,
    pub inputs: Seq<TypedNameView>,
    pub outputs: Seq<TypedNameView>,
    pub state_mutability: Seq<char>,
}

impl View for ContractFunction {
    type V = ContractFunctionView;

    open spec fn view(&self) -> ContractFunctionView {
        ContractFunctionView {
            name: self.name@,
            function_type: self.function_type@,
            inputs: self.inputs@.map_values(|i: FunctionInput| i@),
            outputs: self.outputs@.map_values(|o: FunctionOutput| o@),
            state_mutability: self.state_mutability@,
        }
    }
}

/// The monitoring condition of a rule: which contract function is read, with
/// which arguments, and what its result is compared with.
#[derive(Debug)]
pub struct Rule {
    pub chain: String,
    pub input: Vec<String>,
    pub func_sig: String,
    pub file_name: String,
    pub operands: Vec<String>,
    pub operator: String,
    pub rule_string: String,
    pub output_index: i64,
    pub input_data_type: Vec<String>,
    pub output_data_type: Vec<String>,
    pub contract_address: String,
    pub contract_address_alias: String,
    pub contract_function_object: ContractFunction,
}

pub struct RuleView {
    pub chain: Seq<char>,
    pub input: Seq<Seq<char>>,
    pub func_sig: Seq<char>,
    pub file_name: Seq<char>,
    pub operands: Seq<Seq<char>>,
    pub operator: Seq<char>,
    pub rule_string: Seq<char>,
    pub output_index: int,
    pub input_data_type: Seq<Seq<char>>,
    pub output_data_type: Seq<Seq<char>>,
    pub contract_address: Seq<char>,
    pub contract_address_alias: Seq<char>,
    pub contract_function_object: ContractFunctionView,
}

impl View for Rule {
    type V = RuleView;

    open spec fn view(&self) -> RuleView {
        RuleView {
            chain: self.chain@,
            input: strings_view(self.input@),
            func_sig: self.func_sig@,
            file_name: self.file_name@,
            operands: strings_view(self.operands@),
            operator: self.operator@,
            rule_string: self.rule_string@,
            output_index: self.output_index as int,
            input_data_type: strings_view(self.input_data_type@),
            output_data_type: strings_view(self.output_data_type@),
            contract_address: self.contract_address@,
            contract_address_alias: self.contract_address_alias@,
            contract_function_object: self.contract_function_object@,
        }
    }
}

/// The request that registers a monitoring rule.
#[derive(Debug)]
pub struct RequestBody {
    pub agent_type: String,
    pub agent_name: String,
    pub severity: Severity,
    pub mute_duration: i64,
    pub state: State,
    pub rule: Rule,
    pub channels_configurations: Vec<ChannelConfiguration>,
    pub reminders_configurations: Vec<ChannelConfiguration>,
    pub delay: i64,
}

pub struct RequestBodyView {
    pub agent_type: Seq<char>,
    pub agent_name: Seq<char>,
    pub severity: Severity,
    pub mute_duration: int,
    pub state: State,
    pub rule: RuleView,
    pub channels_configurations: Seq<ChannelConfigurationView>,
    pub reminders_configurations: Seq<ChannelConfigurationView>,
    pub delay: int,
}

impl View for RequestBody {
    type V = RequestBodyView;

    open spec fn view(&self) -> RequestBodyView {
        RequestBodyView {
            agent_type: self.agent_type@,
            agent_name: self.agent_name@,
            severity: self.severity,
            mute_duration: self.mute_duration as int,
            state: self.state,
            rule: self.rule@,
            channels_configurations: channels_view(self.channels_configurations@),
            reminders_configurations: channels_view(self.reminders_configurations@),
            delay: self.delay as int,
        }
    }
}

/// Whole days in a number of seconds, rounded towards zero.
pub open spec fn spec_whole_days(seconds: int) -> int {
    if seconds >= 0 {
        seconds / 86400
    } else {
        -((-seconds) / 86400)
    }
}

/// The sentence that describes a rule to its reader.
pub open spec fn spec_rule_string(cooler: Seq<char>, loan: Seq<char>, threshold: int) -> Seq<char> {
    "Cooler ("@ + cooler + ") Loan (id: "@ + loan + ") expires in less than "@ + decimal_int(
        spec_whole_days(threshold),
    ) + " days"@
}

/// The contract function every rule reads: the time left before a loan expires.
pub open spec fn spec_time_to_expiry_function() -> ContractFunctionView {
    ContractFunctionView {
        name: "timeToExpiry"@,
        function_type: "function"@,
        inputs: seq![
            TypedNameView { name: "cooler_"@, kind: "address"@ },
            TypedNameView { name: "id_"@, kind: "uint256"@ },
        ],
        outputs: seq![TypedNameView { name: "timeLeft"@, kind: "uint256"@ }],
        state_mutability: "view"@,
    }
}

/// The rule for a target: the time left of the loan `input[1]` of the
/// contract `input[0]` is less than `threshold` seconds.
pub open spec fn spec_rule(input: Seq<Seq<char>>, threshold: int) -> RuleView {
    RuleView {
        chain: "ethereum"@,
        input: input,
        func_sig: "timeToExpiry(address cooler_, uint256 id_)"@,
        file_name: ""@,
        operands: seq![decimal_int(threshold)],
        operator: "lt"@,
        rule_string: spec_rule_string(input[0], input[1], threshold),
        output_index: 0,
        input_data_type: seq!["address"@, "uint256"@],
        output_data_type: seq!["uint256"@],
        contract_address: "0xA00F4b7c57a4995796D6E2ae4A6D5dEc8a557367"@,
        contract_address_alias: "Cooler Monitoring"@,
        contract_function_object: spec_time_to_expiry_function(),
    }
}

/// The channels of a rule: one entry for each channel that is configured,
/// the email channel first.
pub open spec fn spec_channels(
    email: Option<Seq<char>>,
    webhook: Option<Seq<char>>,
) -> Seq<ChannelConfigurationView> {
    let emails = match email {
        Some(address) => seq![
            ChannelConfigurationView {
                channel_type: ChannelType::Email,
                configuration: ConfigurationView::Email(seq![address]),
            },
        ],
        None => seq![],
    };
    let hooks = match webhook {
        Some(url) => seq![
            ChannelConfigurationView {
                channel_type: ChannelType::Discord,
                configuration: ConfigurationView::Webhook(seq![url]),
            },
        ],
        None => seq![],
    };
    emails + hooks
}

/// The request that registers the rule for a target with its channels.
pub open spec fn spec_request_body(
    input: Seq<Seq<char>>,
    threshold: int,
    email: Option<Seq<char>>,
    webhook: Option<Seq<char>>,
) -> RequestBodyView {
    RequestBodyView {
        agent_type: "genericNodeQuery"@,
        agent_name: "COOLER ALERTS"@,
        severity: Severity::Medium,
        mute_duration: 0,
        state: State::Disabled,
        rule: spec_rule(input, threshold),
        channels_configurations: spec_channels(email, webhook),
        reminders_configurations: seq![],
        delay: 50000,
    }
}

fn one_string(s: String) -> (v: Vec<String>)
    ensures
        strings_view(v@) == seq![s@],
{
    let mut v: Vec<String> = Vec::new();
    v.push(s);
    assert(strings_view(v@) =~= seq![s@]);
    v
}

fn two_strings(a: String, b: String) -> (v: Vec<String>)
    ensures
        strings_view(v@) == seq![a@, b@],
{
    let mut v: Vec<String> = Vec::new();
    v.push(a);
    v.push(b);
    assert(strings_view(v@) =~= seq![a@, b@]);
    v
}

fn time_to_expiry_function() -> (r: ContractFunction)
    ensures
        r@ == spec_time_to_expiry_function(),
{
    let mut inputs: Vec<FunctionInput> = Vec::new();
    inputs.push(FunctionInput { name: "cooler_".to_owned(), input_type: "address".to_owned() });
    inputs.push(FunctionInput { name: "id_".to_owned(), input_type: "uint256".to_owned() });
    let mut outputs: Vec<FunctionOutput> = Vec::new();
    outputs.push(FunctionOutput { name: "timeLeft".to_owned(), output_type: "uint256".to_owned() });
    let r = ContractFunction {
        name: "timeToExpiry".to_owned(),
        function_type: "function".to_owned(),
        inputs,
        outputs,
        state_mutability: "view".to_owned(),
    };
    assert(r@.inputs =~= spec_time_to_expiry_function().inputs);
    assert(r@.outputs =~= spec_time_to_expiry_function().outputs);
    r
}

/// Whole days in a number of seconds, rounded towards zero.
pub fn whole_days(seconds: i64) -> (r: i64)
    ensures
        r == spec_whole_days(seconds as int),
{
    seconds / SECONDS_PER_DAY
}

fn rule_string(cooler: &str, loan: &str, threshold: i64) -> (r: String)
    ensures
        r@ == spec_rule_string(cooler@, loan@, threshold as int),
{
    let mut s = "Cooler (".to_owned();
    s.append(cooler);
    s.append(") Loan (id: ");
    s.append(loan);
    s.append(") expires in less than ");
    let days = decimal_i64(whole_days(threshold));
    s.append(days.as_str());
    s.append(" days");
    s
}

/// The channels of a rule: one entry for each channel that is configured,
/// the email channel first.
pub fn build_channels(email: Option<String>, webhook: Option<String>) -> (r: Vec<
    ChannelConfiguration,
>)
    ensures
        channels_view(r@) == spec_channels(option_view(email), option_view(webhook)),
{
    let mut channel_configurations: Vec<ChannelConfiguration> = Vec::new();
    if let Some(email) = email {
        channel_configurations.push(ChannelConfiguration::new_email(one_string(email)));
    }
    if let Some(url) = webhook {
        channel_configurations.push(ChannelConfiguration::new_discord(one_string(url)));
    }
    assert(channels_view(channel_configurations@) =~= spec_channels(
        option_view(email),
        option_view(webhook),
    ));
    channel_configurations
}

/// Builds the request that registers the rule for a target. `input` names
/// the target: the contract's address, then the loan's identifier.
/// `threshold` is the advance warning in seconds. Every target gives a
/// request.
pub fn build_request_body(
    input: Vec<String>,
    threshold: i64,
    email: Option<String>,
    webhook: Option<String>,
) -> (r: Result<RequestBody, ApiError>)
    requires
        input.len() >= 2,
    ensures
        r is Ok,
        r->Ok_0@ == spec_request_body(
            strings_view(input@),
            threshold as int,
            option_view(email),
            option_view(webhook),
        ),
{
    Ok(request_body(input, threshold, email, webhook))
}

/// The request that registers the rule for a target.
pub fn request_body(
    input: Vec<String>,
    threshold: i64,
    email: Option<String>,
    webhook: Option<String>,
) -> (r: RequestBody)
    requires
        input.len() >= 2,
    ensures
        r@ == spec_request_body(
            strings_view(input@),
            threshold as int,
            option_view(email),
            option_view(webhook),
        ),
{
    let text = rule_string(input[0].as_str(), input[1].as_str(), threshold);
    let rule = Rule {
        chain: "ethereum".to_owned(),
        input: input,
        func_sig: "timeToExpiry(address cooler_, uint256 id_)".to_owned(),
        file_name: "".to_owned(),
        operands: one_string(decimal_i64(threshold)),
        operator: "lt".to_owned(),
        rule_string: text,
        output_index: 0,
        input_data_type: two_strings("address".to_owned(), "uint256".to_owned()),
        output_data_type: one_string("uint256".to_owned()),
        contract_address: "0xA00F4b7c57a4995796D6E2ae4A6D5dEc8a557367".to_owned(),
        contract_address_alias: "Cooler Monitoring".to_owned(),
        contract_function_object: time_to_expiry_function(),
    };
    let channel_configurations = build_channels(email, webhook);
    let reminders: Vec<ChannelConfiguration> = Vec::new();
    assert(channels_view(reminders@) =~= seq![]);
    RequestBody {
        agent_type: "genericNodeQuery".to_owned(),
        agent_name: "COOLER ALERTS".to_owned(),
        severity: Severity::Medium,
        mute_duration: 0,
        state: State::Disabled,
        rule,
        channels_configurations: channel_configurations,
        reminders_configurations: reminders,
        delay: 50000,
    }
}

/// The length in seconds of a threshold given in days.
pub fn threshold_seconds(threshold_days: i64) -> (r: i64)
    requires
        0 <= threshold_days <= MAX_THRESHOLD_DAYS,
    ensures
        r == threshold_days * 86400,
{
    threshold_days * SECONDS_PER_DAY
}

// -- Replies --------------------------------------------------------------------------------

/// The reply to a login: the bearer token.
#[derive(Debug)]
pub struct LoginResponse {
    pub token: String,
}

/// The channels of one alert policy of a registered rule.
#[derive(Debug)]
pub struct AlertPolicy {
    pub channels_configurations: Vec<ChannelConfiguration>,
}

/// The reply to a registration: the new rule with its identifier.
#[derive(Debug)]
pub struct CustomAgentResponse {
    pub id: i64,
    pub rule: Rule,
    pub alert_policies: Vec<AlertPolicy>,
}

impl CustomAgentResponse {
    pub fn agent_id(&self) -> (r: &i64)
        ensures
            *r == self.id,
    {
        &self.id
    }

    pub fn agent_rules(&self) -> (r: &Rule)
        ensures
            *r == self.rule,
    {
        &self.rule
    }

    pub fn alert_policies(&self) -> (r: &Vec<AlertPolicy>)
        ensures
            *r == self.alert_policies,
    {
        &self.alert_policies
    }
}

/// What a reply of the rule engine holds.
#[derive(Debug)]
pub enum ResponseData {
    Login(LoginResponse),
    CustomAgent(CustomAgentResponse),
}

/// A parsed reply of the rule engine.
#[derive(Debug)]
pub struct RequestResponse {
    pub data: ResponseData,
}

/// What came back for a request, as the transport reports it.
#[derive(Debug)]
pub enum HttpReply {
    /// The request could not be sent, or the reply's body could not be read.
    TransportFailure,
    /// A reply arrived: its status code, and its body where it was read and
    /// could be parsed.
    Response { status: u16, body: Option<RequestResponse> },
}

/// A status code of the success class.
pub open spec fn spec_is_success(status: u16) -> bool {
    200 <= status <= 299
}

/// A status code of the server-error class.
pub open spec fn spec_is_server_error(status: u16) -> bool {
    500 <= status <= 599
}

/// Whether a status code is of the success class.
pub fn is_success(status: u16) -> (r: bool)
    ensures
        r == spec_is_success(status),
{
    200 <= status && status <= 299
}

/// Whether a status code is of the server-error class.
pub fn is_server_error(status: u16) -> (r: bool)
    ensures
        r == spec_is_server_error(status),
{
    500 <= status && status <= 599
}

/// What a reply to a login means: the token of a successful reply that holds
/// one, else the reason why there is none.
pub open spec fn spec_login_outcome(reply: HttpReply) -> Result<String, ApiError> {
    match reply {
        HttpReply::TransportFailure => Err(ApiError::LoginTransport),
        HttpReply::Response { status, body } => if !spec_is_success(status) {
            Err(ApiError::LoginRejected)
        } else {
            match body {
                None => Err(ApiError::LoginUnparsable),
                Some(response) => match response.data {
                    ResponseData::Login(login) => Ok(login.token),
                    ResponseData::CustomAgent(_) => Err(ApiError::LoginUnexpected),
                },
            }
        },
    }
}

/// Reads the reply to a login.
pub fn login_outcome(reply: HttpReply) -> (r: Result<String, ApiError>)
    ensures
        r == spec_login_outcome(reply),
{
    match reply {
        HttpReply::TransportFailure => Err(ApiError::LoginTransport),
        HttpReply::Response { status, body } => {
            if !is_success(status) {
                Err(ApiError::LoginRejected)
            } else {
                match body {
                    None => Err(ApiError::LoginUnparsable),
                    Some(response) => match response.data {
                        ResponseData::Login(login) => Ok(login.token),
                        ResponseData::CustomAgent(_) => Err(ApiError::LoginUnexpected),
                    },
                }
            }
        },
    }
}

/// What a reply to a registration means. A successful reply that holds a
/// rule gives that rule. A server error, or a successful reply that holds
/// no rule, gives nothing and is no failure: the rule may exist already.
/// Any other status is a failure, and so is a transport failure.
pub open spec fn spec_creation_outcome(reply: HttpReply) -> Result<
    Option<CustomAgentResponse>,
    ApiError,
> {
    match reply {
        HttpReply::TransportFailure => Err(ApiError::Transport),
        HttpReply::Response { status, body } => if spec_is_success(status) {
            match body {
                None => Err(ApiError::Unparsable),
                Some(response) => match response.data {
                    ResponseData::CustomAgent(agent) => Ok(Some(agent)),
                    ResponseData::Login(_) => Ok(None),
                },
            }
        } else if spec_is_server_error(status) {
            Ok(None)
        } else {
            Err(ApiError::Rejected)
        },
    }
}

/// Reads the reply to a registration.
pub fn creation_outcome(reply: HttpReply) -> (r: Result<Option<CustomAgentResponse>, ApiError>)
    ensures
        r == spec_creation_outcome(reply),
{
    match reply {
        HttpReply::TransportFailure => Err(ApiError::Transport),
        HttpReply::Response { status, body } => {
            if is_success(status) {
                match body {
                    None => Err(ApiError::Unparsable),
                    Some(response) => match response.data {
                        ResponseData::CustomAgent(agent) => Ok(Some(agent)),
                        ResponseData::Login(_) => Ok(None),
                    },
                }
            } else if is_server_error(status) {
                Ok(None)
            } else {
                Err(ApiError::Rejected)
            }
        },
    }
}

/// What a reply to a deregistration means: a failure only where the request
/// was not transmitted. A rule that is gone already is no failure, whatever
/// status the rule engine answers with.
pub open spec fn spec_deletion_outcome(reply: HttpReply) -> Result<(), ApiError> {
    match reply {
        HttpReply::TransportFailure => Err(ApiError::Transport),
        HttpReply::Response { .. } => Ok(()),
    }
}

/// Reads the reply to a deregistration.
pub fn deletion_outcome(reply: HttpReply) -> (r: Result<(), ApiError>)
    ensures
        r == spec_deletion_outcome(reply),
{
    match reply {
        HttpReply::TransportFailure => Err(ApiError::Transport),
        HttpReply::Response { .. } => Ok(()),
    }
}

} // verus!
