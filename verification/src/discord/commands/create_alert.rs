//! The command that creates an alert.

use vstd::prelude::*;
use vstd::string::*;
use crate::discord::commands::{
    cooler_option, failure, integer_option, options_view, spec_cooler_option, spec_failure,
    spec_integer_option, spec_text_option, spec_threshold_text, text_option, threshold_text,
    CommandDescription, CommandDescriptionView, CommandOption, OptionDescription,
};
use crate::message::{
    contract_link, fields_view, push_field, reminder, spec_contract_link, spec_field,
    spec_reminder, Embed, EmbedField, EmbedView, COLOR_SUCCESS, COLOR_WARNING,
};
use crate::hypernative::ApiError;
use crate::registry::types::ErrorDB;
use crate::text::{contains, decimal_i64, decimal_int, option_view, spec_contains};

verus! {

pub open spec fn spec_register() -> CommandDescriptionView {
    CommandDescriptionView {
        name: "create_alert"@,
        description: "Create a new alert"@,
        options: seq![
            spec_cooler_option(),
            spec_integer_option(
                "loan_id"@,
                "The ID of the loan to be monitored."@,
                true,
                Some(0i64),
            ),
            spec_integer_option(
                "threshold"@,
                "The days before expiration that the user should be notified in advance."@,
                true,
                Some(0i64),
            ),
            spec_text_option(
                "webhook_url"@,
                "The webhook URL where the alerts should be sent. Example: https://discord.com/api/webhooks/123/XXX"@,
            ),
            spec_text_option(
                "email"@,
                "The email address where the alerts should be sent. Example: cooler_alerts@yxz.com"@,
            ),
        ],
    }
}

/// The command as it is announced: the contract, the loan and the
/// threshold, which are required, then a webhook and an email.
pub fn register() -> (r: CommandDescription)
    ensures
        r@ == spec_register(),
{
    let mut options: Vec<OptionDescription> = Vec::new();
    options.push(cooler_option());
    options.push(integer_option("loan_id", "The ID of the loan to be monitored.", true, Some(0)));
    options.push(
        integer_option(
            "threshold",
            "The days before expiration that the user should be notified in advance.",
            true,
            Some(0),
        ),
    );
    options.push(
        text_option(
            "webhook_url",
            "The webhook URL where the alerts should be sent. Example: https://discord.com/api/webhooks/123/XXX",
        ),
    );
    options.push(
        text_option(
            "email",
            "The email address where the alerts should be sent. Example: cooler_alerts@yxz.com",
        ),
    );
    assert(options_view(options@) =~= spec_register().options);
    CommandDescription {
        name: "create_alert".to_owned(),
        description: "Create a new alert".to_owned(),
        options,
    }
}

/// What a receiver given by the user is.
#[derive(Debug, Clone, Copy, PartialEq, Eq, Structural)]
pub enum Receiver {
    Webhook,
    Email,
    Invalid,
}

/// A text that holds `https://` or `http://` is a webhook; any other text
/// that holds `@` is an email address; the rest is neither.
pub open spec fn spec_classify_receiver(text: Seq<char>) -> Receiver {
    if spec_contains(text, "https://"@) || spec_contains(text, "http://"@) {
        Receiver::Webhook
    } else if spec_contains(text, "@"@) {
        Receiver::Email
    } else {
        Receiver::Invalid
    }
}

/// Tells a webhook from an email address.
pub fn classify_receiver(text: &str) -> (r: Receiver)
    ensures
        r == spec_classify_receiver(text@),
{
    if contains(text, "https://") || contains(text, "http://") {
        Receiver::Webhook
    } else if contains(text, "@") {
        Receiver::Email
    } else {
        Receiver::Invalid
    }
}

/// The channels of a new alert: the webhook, then the email.
#[derive(Debug)]
pub struct Channels {
    pub webhook_url: Option<String>,
    pub email: Option<String>,
}

pub struct ChannelsView {
    pub webhook_url: Option<Seq<char>>,
    pub email: Option<Seq<char>>,
}

impl View for Channels {
    type V = ChannelsView;

    open spec fn view(&self) -> ChannelsView {
        ChannelsView { webhook_url: option_view(self.webhook_url), email: option_view(self.email) }
    }
}

/// The channels after one more receiver option was read. An option without
/// a text changes nothing; a text sets the channel it is a receiver for;
/// a text that is neither a webhook nor an email address is refused.
pub open spec fn spec_with_receiver(channels: ChannelsView, option: CommandOption) -> Option<
    ChannelsView,
> {
    match option.spec_text() {
        None => Some(channels),
        Some(text) => match spec_classify_receiver(text) {
            Receiver::Webhook => Some(
                ChannelsView { webhook_url: Some(text), email: channels.email },
            ),
            Receiver::Email => Some(
                ChannelsView { webhook_url: channels.webhook_url, email: Some(text) },
            ),
            Receiver::Invalid => None,
        },
    }
}

fn with_receiver(channels: Channels, option: &CommandOption) -> (r: Option<Channels>)
    ensures
        r is Some == spec_with_receiver(channels@, *option) is Some,
        r is Some ==> r->0@ == spec_with_receiver(channels@, *option)->0,
{
    match option.text() {
        None => Some(channels),
        Some(text) => match classify_receiver(text) {
            Receiver::Webhook => Some(
                Channels { webhook_url: Some(text.to_owned()), email: channels.email },
            ),
            Receiver::Email => Some(
                Channels { webhook_url: channels.webhook_url, email: Some(text.to_owned()) },
            ),
            Receiver::Invalid => None,
        },
    }
}

/// What the user asks for: the target, the threshold in days, and the
/// channels.
#[derive(Debug)]
pub struct AlertRequest {
    pub cooler: String,
    pub loan_id: i64,
    pub threshold: i64,
    pub webhook_url: Option<String>,
    pub email: Option<String>,
}

pub struct AlertRequestView {
    pub cooler: Seq<char>,
    pub loan_id: int,
    pub threshold: int,
    pub webhook_url: Option<Seq<char>>,
    pub email: Option<Seq<char>>,
}

impl View for AlertRequest {
    type V = AlertRequestView;

    open spec fn view(&self) -> AlertRequestView {
        AlertRequestView {
            cooler: self.cooler@,
            loan_id: self.loan_id as int,
            threshold: self.threshold as int,
            webhook_url: option_view(self.webhook_url),
            email: option_view(self.email),
        }
    }
}

/// The reply to a command that names no receiver at all.
pub open spec fn spec_missing_receiver() -> EmbedView {
    EmbedView {
        title: Some("Missing alert receiver!"@),
        description: Some("Please try again informing a webhook URL or an email."@),
        fields: seq![],
        footer: None,
        color: Some(COLOR_WARNING),
    }
}

/// The reply to a receiver that is neither a webhook nor an email address.
pub open spec fn spec_invalid_receiver() -> EmbedView {
    spec_failure("Invalid webhoook or email. Please try again with a valid input format."@, None)
}

/// The options of a command are in order: the contract as a text, then the
/// loan and the threshold as numbers. The chat service sees to that for a
/// command announced as this one is.
pub open spec fn required_options(options: Seq<CommandOption>) -> bool {
    &&& options.len() >= 3
    &&& options[0].spec_text() is Some
    &&& options[1].spec_integer() is Some
    &&& options[2].spec_integer() is Some
}

/// Whether the options of a command are in order.
pub fn has_required_options(options: &Vec<CommandOption>) -> (r: bool)
    ensures
        r == required_options(options@),
{
    options.len() >= 3 && options[0].text().is_some() && options[1].integer().is_some()
        && options[2].integer().is_some()
}

/// The request with the given channels.
pub open spec fn spec_request(options: Seq<CommandOption>, channels: ChannelsView) -> AlertRequestView {
    AlertRequestView {
        cooler: options[0].spec_text()->0,
        loan_id: options[1].spec_integer()->0 as int,
        threshold: options[2].spec_integer()->0 as int,
        webhook_url: channels.webhook_url,
        email: channels.email,
    }
}

/// What the options of a command ask for. The fourth and the fifth option
/// name the receivers, each a webhook or an email address, the later one
/// winning where both are of one kind. A command without a fourth option
/// is refused, and so is a receiver that is neither.
pub open spec fn spec_parse(options: Seq<CommandOption>) -> Result<AlertRequestView, EmbedView> {
    let none = ChannelsView { webhook_url: None, email: None };
    if options.len() < 4 {
        Err(spec_missing_receiver())
    } else {
        match spec_with_receiver(none, options[3]) {
            None => Err(spec_invalid_receiver()),
            Some(first) => if options.len() < 5 {
                Ok(spec_request(options, first))
            } else {
                match spec_with_receiver(first, options[4]) {
                    None => Err(spec_invalid_receiver()),
                    Some(second) => Ok(spec_request(options, second)),
                }
            },
        }
    }
}

/// The reply to a command that names no receiver at all.
pub fn missing_receiver() -> (r: Embed)
    ensures
        r@ == spec_missing_receiver(),
{
    let fields: Vec<EmbedField> = Vec::new();
    assert(fields_view(fields@) =~= seq![]);
    Embed {
        title: Some("Missing alert receiver!".to_owned()),
        description: Some("Please try again informing a webhook URL or an email.".to_owned()),
        fields,
        footer: None,
        color: Some(COLOR_WARNING),
    }
}

/// The reply to a receiver that is neither a webhook nor an email address.
pub fn invalid_receiver() -> (r: Embed)
    ensures
        r@ == spec_invalid_receiver(),
{
    failure("Invalid webhoook or email. Please try again with a valid input format.", None)
}

/// Reads the options of a command: the request they make, or the reply
/// that refuses them.
pub fn parse(options: &Vec<CommandOption>) -> (r: Result<AlertRequest, Embed>)
    requires
        required_options(options@),
    ensures
        match r {
            Ok(request) => spec_parse(options@) == Ok::<AlertRequestView, EmbedView>(request@),
            Err(reply) => spec_parse(options@) == Err::<AlertRequestView, EmbedView>(reply@),
        },
{
    if options.len() < 4 {
        return Err(missing_receiver());
    }
    let none = Channels { webhook_url: None, email: None };
    let first = match with_receiver(none, &options[3]) {
        None => {
            return Err(invalid_receiver());
        },
        Some(first) => first,
    };
    let channels = if options.len() < 5 {
        first
    } else {
        match with_receiver(first, &options[4]) {
            None => {
                return Err(invalid_receiver());
            },
            Some(second) => second,
        }
    };
    let cooler = match options[0].text() {
        Some(text) => text.to_owned(),
        None => String::new(),
    };
    let loan_id = match options[1].integer() {
        Some(number) => number,
        None => 0,
    };
    let threshold = match options[2].integer() {
        Some(number) => number,
        None => 0,
    };
    Ok(
        AlertRequest {
            cooler,
            loan_id,
            threshold,
            webhook_url: channels.webhook_url,
            email: channels.email,
        },
    )
}

/// The reply to a count of the user's alerts that failed.
pub open spec fn spec_count_failed(error: Seq<char>) -> EmbedView {
    spec_failure("Unable to retrieve current alerts form the DB. Please try again."@, Some(error))
}

/// The reply to a count of the user's alerts that failed.
pub fn count_failed(error: &ErrorDB) -> (r: Embed)
    ensures
        r@ == spec_count_failed(error@),
{
    failure("Unable to retrieve current alerts form the DB. Please try again.", Some(error))
}

/// The number of alerts a user may have at most.
pub const MAX_ALERTS_PER_USER: i32 = 3;

/// The reply to a user who has as many alerts as a user may have.
pub open spec fn spec_limit_reply() -> EmbedView {
    spec_failure(
        "You already have the maximum of 3 alerts. Please delete one before creating another."@,
        None,
    )
}

/// What follows the count of the user's alerts: a user who has as many
/// alerts as a user may have is refused; else the command goes ahead.
pub open spec fn spec_limit_reached(alerts_before: int) -> Option<EmbedView> {
    if alerts_before >= MAX_ALERTS_PER_USER {
        Some(spec_limit_reply())
    } else {
        None
    }
}

/// What follows the count of the user's alerts.
pub fn limit_reached(alerts_before: i32) -> (r: Option<Embed>)
    ensures
        match r {
            Some(reply) => spec_limit_reached(alerts_before as int) == Some(reply@),
            None => spec_limit_reached(alerts_before as int) is None,
        },
{
    if alerts_before >= MAX_ALERTS_PER_USER {
        Some(
            failure(
                "You already have the maximum of 3 alerts. Please delete one before creating another.",
                None,
            ),
        )
    } else {
        None
    }
}

/// The reply to a registration at the rule engine that failed.
pub open spec fn spec_not_registered(error: ApiError) -> EmbedView {
    spec_failure(
        "Unable to register the alert in the monitoring platform. Please try again."@,
        Some(error.spec_message()),
    )
}

/// What follows the registration of the rule at the rule engine. A failure
/// ends the command, and nothing is stored. Otherwise the alert is stored,
/// with the identifier of its rule where one was registered, and without
/// one where the rule engine registered none.
pub open spec fn spec_after_registration(outcome: Result<Option<i64>, ApiError>) -> Result<
    Option<i64>,
    EmbedView,
> {
    match outcome {
        Ok(rule_id) => Ok(rule_id),
        Err(error) => Err(spec_not_registered(error)),
    }
}

/// What follows the registration of the rule at the rule engine.
pub fn after_registration(outcome: Result<Option<i64>, ApiError>) -> (r: Result<
    Option<i64>,
    Embed,
>)
    ensures
        match r {
            Ok(rule_id) => spec_after_registration(outcome) == Ok::<Option<i64>, EmbedView>(
                rule_id,
            ),
            Err(reply) => spec_after_registration(outcome) == Err::<Option<i64>, EmbedView>(
                reply@,
            ),
        },
{
    match outcome {
        Ok(rule_id) => Ok(rule_id),
        Err(error) => {
            let shown = ErrorDB::new(error.message().as_str());
            Err(
                failure(
                    "Unable to register the alert in the monitoring platform. Please try again.",
                    Some(&shown),
                ),
            )
        },
    }
}

/// The reply to an alert that was not stored, with the error's message
/// where an error came with it.
pub open spec fn spec_not_stored(error: Option<Seq<char>>) -> EmbedView {
    spec_failure(
        "Error when trying to register the alerts in the database. Please try again."@,
        error,
    )
}

/// The reply to an alert that was not stored.
pub fn not_stored(error: Option<&ErrorDB>) -> (r: Embed)
    ensures
        r@ == spec_not_stored(
            match error {
                Some(e) => Some(e@),
                None => None,
            },
        ),
{
    failure("Error when trying to register the alerts in the database. Please try again.", error)
}

/// The reply that confirms a new alert: the contract, the loan, the
/// threshold, and the mark of each channel.
pub open spec fn spec_created(
    cooler: Seq<char>,
    loan_id: int,
    threshold: int,
    email_check: Seq<char>,
    webhook_check: Seq<char>,
) -> EmbedView {
    EmbedView {
        title: Some("Alert successfully added"@),
        description: Some(spec_contract_link(cooler)),
        fields: seq![
            spec_field("Loan ID"@, decimal_int(loan_id), true),
            spec_field(""@, ""@, true),
            spec_field("Alert threshold"@, spec_threshold_text(threshold), true),
            spec_field("Webhook Notification?"@, webhook_check, true),
            spec_field(""@, ""@, true),
            spec_field("Email Notification?"@, email_check, true),
            spec_field(""@, ""@, false),
        ],
        footer: Some(spec_reminder()),
        color: Some(COLOR_SUCCESS),
    }
}

/// The reply that confirms a new alert.
pub fn created(
    cooler: &str,
    loan_id: i64,
    threshold: i64,
    email_check: String,
    webhook_check: String,
) -> (r: Embed)
    ensures
        r@ == spec_created(
            cooler@,
            loan_id as int,
            threshold as int,
            email_check@,
            webhook_check@,
        ),
{
    let mut fields: Vec<EmbedField> = Vec::new();
    assert(fields_view(fields@) =~= seq![]);
    push_field(&mut fields, "Loan ID", decimal_i64(loan_id), true);
    push_field(&mut fields, "", "".to_owned(), true);
    push_field(&mut fields, "Alert threshold", threshold_text(threshold), true);
    push_field(&mut fields, "Webhook Notification?", webhook_check, true);
    push_field(&mut fields, "", "".to_owned(), true);
    push_field(&mut fields, "Email Notification?", email_check, true);
    push_field(&mut fields, "", "".to_owned(), false);
    assert(fields_view(fields@) =~= spec_created(
        cooler@,
        loan_id as int,
        threshold as int,
        email_check@,
        webhook_check@,
    ).fields);
    Embed {
        title: Some("Alert successfully added".to_owned()),
        description: Some(contract_link(cooler)),
        fields,
        footer: Some(reminder()),
        color: Some(COLOR_SUCCESS),
    }
}

/// The reply once the alert was written, by the number of the user's alerts
/// before and after: where the number did not change the alert was not
/// stored, else it is confirmed.
pub open spec fn spec_conclude(
    alerts_before: int,
    alerts_after: int,
    request: AlertRequestView,
    email_check: Seq<char>,
    webhook_check: Seq<char>,
) -> EmbedView {
    if alerts_after == alerts_before {
        spec_not_stored(None)
    } else {
        spec_created(
            request.cooler,
            request.loan_id,
            request.threshold,
            email_check,
            webhook_check,
        )
    }
}

/// The reply once the alert was written.
pub fn conclude(
    alerts_before: i32,
    alerts_after: i32,
    request: &AlertRequest,
    email_check: String,
    webhook_check: String,
) -> (r: Embed)
    ensures
        r@ == spec_conclude(
            alerts_before as int,
            alerts_after as int,
            request@,
            email_check@,
            webhook_check@,
        ),
{
    if alerts_after == alerts_before {
        not_stored(None)
    } else {
        created(
            request.cooler.as_str(),
            request.loan_id,
            request.threshold,
            email_check,
            webhook_check,
        )
    }
}

} // verus!
