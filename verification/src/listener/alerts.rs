//! The notifications of a tripped alert: what is sent through each channel.

use vstd::prelude::*;
use vstd::string::*;
use crate::message::{
    contract_link, fields_view, push_field, reminder, spec_contract_link, spec_field,
    spec_reminder, Embed, EmbedField, EmbedView, COLOR_WARNING,
};
use crate::registry::types::{AlertDB, AlertView};
use crate::text::{decimal_i64, decimal_int, decimal_nat, decimal_u64};

verus! {

/// A message for a chat webhook.
#[derive(Debug)]
pub struct WebhookMessage {
    pub url: String,
    pub username: String,
    pub content: String,
    pub embed: Embed,
}

pub struct WebhookMessageView {
    pub url: Seq<char>,
    pub username: Seq<char>,
    pub content: Seq<char>,
    pub embed: EmbedView,
}

impl View for WebhookMessage {
    type V = WebhookMessageView;

    open spec fn view(&self) -> WebhookMessageView {
        WebhookMessageView {
            url: self.url@,
            username: self.username@,
            content: self.content@,
            embed: self.embed@,
        }
    }
}

/// An email in plain text.
#[derive(Debug)]
pub struct EmailMessage {
    pub from: String,
    pub to: String,
    pub subject: String,
    pub body: String,
}

pub struct EmailMessageView {
    pub from: Seq<char>,
    pub to: Seq<char>,
    pub subject: Seq<char>,
    pub body: Seq<char>,
}

impl View for EmailMessage {
    type V = EmailMessageView;

    open spec fn view(&self) -> EmailMessageView {
        EmailMessageView {
            from: self.from@,
            to: self.to@,
            subject: self.subject@,
            body: self.body@,
        }
    }
}

/// One notification, for one channel.
#[derive(Debug)]
pub enum Notification {
    Webhook(WebhookMessage),
    Email(EmailMessage),
}

pub enum NotificationView {
    Webhook(WebhookMessageView),
    Email(EmailMessageView),
}

impl View for Notification {
    type V = NotificationView;

    open spec fn view(&self) -> NotificationView {
        match self {
            Notification::Webhook(message) => NotificationView::Webhook(message@),
            Notification::Email(message) => NotificationView::Email(message@),
        }
    }
}

/// The views of a sequence of notifications, in order.
pub open spec fn notifications_view(notifications: Seq<Notification>) -> Seq<NotificationView> {
    notifications.map_values(|n: Notification| n@)
}

/// The text that says how many days are left.
pub open spec fn spec_days_text(days: nat) -> Seq<char> {
    decimal_nat(days) + " days"@
}

/// The webhook message for a loan that expires in `days` days: the
/// contract, the loan, the days left, and the pointer to the user's list of
/// alerts.
pub open spec fn spec_webhook_message(
    webhook_url: Seq<char>,
    cooler: Seq<char>,
    loan_id: int,
    days: nat,
) -> WebhookMessageView {
    WebhookMessageView {
        url: webhook_url,
        username: "Webhook test"@,
        content: ""@,
        embed: EmbedView {
            title: Some("New Alert!"@),
            description: Some(spec_contract_link(cooler) + " is about to expire!"@),
            fields: seq![
                spec_field("Loan ID"@, decimal_int(loan_id), true),
                spec_field("Time Left"@, spec_days_text(days), true),
                spec_field(" "@, " "@, false),
            ],
            footer: Some(spec_reminder()),
            color: Some(COLOR_WARNING),
        },
    }
}

/// The text of the email for a loan that expires in `days` days.
pub open spec fn spec_email_body(cooler: Seq<char>, loan_id: int, days: nat) -> Seq<char> {
    "Cooler: "@ + cooler + " is about to expire!\n- Loan ID: "@ + decimal_int(loan_id)
        + "\n- Time Left: "@ + spec_days_text(days) + "\n\nhttps://www.etherscan.io/address/"@
        + cooler + "\n\n"@ + spec_reminder()
}

/// The email for a loan that expires in `days` days: the contract, the
/// loan, the days left, and the pointer to the user's list of alerts.
pub open spec fn spec_email_message(
    receiver: Seq<char>,
    cooler: Seq<char>,
    loan_id: int,
    days: nat,
) -> EmailMessageView {
    EmailMessageView {
        from: "Cooler Monitoring <test@gmail.com>"@,
        to: receiver,
        subject: "New Cooler Alert!"@,
        body: spec_email_body(cooler, loan_id, days),
    }
}

/// The notifications of an alert whose loan expires in `days` days: one for
/// each channel that is configured, the webhook first.
pub open spec fn spec_dispatch(alert: AlertView, days: nat) -> Seq<NotificationView> {
    let hooks = match alert.webhook_url {
        Some(url) => seq![
            NotificationView::Webhook(
                spec_webhook_message(url, alert.cooler, alert.loan_id, days),
            ),
        ],
        None => seq![],
    };
    let mails = match alert.email {
        Some(receiver) => seq![
            NotificationView::Email(
                spec_email_message(receiver, alert.cooler, alert.loan_id, days),
            ),
        ],
        None => seq![],
    };
    hooks + mails
}

fn days_text(days: u64) -> (r: String)
    ensures
        r@ == spec_days_text(days as nat),
{
    let mut text = decimal_u64(days);
    text.append(" days");
    text
}

/// The webhook message for a loan that expires in `days` days.
pub fn webhook_message(webhook_url: &str, cooler: &str, loan_id: i64, days: u64) -> (r:
    WebhookMessage)
    ensures
        r@ == spec_webhook_message(webhook_url@, cooler@, loan_id as int, days as nat),
{
    let mut description = contract_link(cooler);
    description.append(" is about to expire!");
    let mut fields: Vec<EmbedField> = Vec::new();
    assert(fields_view(fields@) =~= seq![]);
    push_field(&mut fields, "Loan ID", decimal_i64(loan_id), true);
    push_field(&mut fields, "Time Left", days_text(days), true);
    push_field(&mut fields, " ", " ".to_owned(), false);
    assert(fields_view(fields@) =~= spec_webhook_message(
        webhook_url@,
        cooler@,
        loan_id as int,
        days as nat,
    ).embed.fields);
    WebhookMessage {
        url: webhook_url.to_owned(),
        username: "Webhook test".to_owned(),
        content: "".to_owned(),
        embed: Embed {
            title: Some("New Alert!".to_owned()),
            description: Some(description),
            fields,
            footer: Some(reminder()),
            color: Some(COLOR_WARNING),
        },
    }
}

/// The email for a loan that expires in `days` days.
pub fn email_message(receiver: &str, cooler: &str, loan_id: i64, days: u64) -> (r: EmailMessage)
    ensures
        r@ == spec_email_message(receiver@, cooler@, loan_id as int, days as nat),
{
    let mut body = "Cooler: ".to_owned();
    body.append(cooler);
    body.append(" is about to expire!\n- Loan ID: ");
    let loan = decimal_i64(loan_id);
    body.append(loan.as_str());
    body.append("\n- Time Left: ");
    let left = days_text(days);
    body.append(left.as_str());
    body.append("\n\nhttps://www.etherscan.io/address/");
    body.append(cooler);
    body.append("\n\n");
    let pointer = reminder();
    body.append(pointer.as_str());
    EmailMessage {
        from: "Cooler Monitoring <test@gmail.com>".to_owned(),
        to: receiver.to_owned(),
        subject: "New Cooler Alert!".to_owned(),
        body,
    }
}

/// The notifications of a tripped alert: one for each channel that is
/// configured on it, the webhook first. An alert without channels gives
/// none.
pub fn dispatch(alert: &AlertDB, days: u64) -> (r: Vec<Notification>)
    ensures
        notifications_view(r@) == spec_dispatch(alert@, days as nat),
        r.len() == alert@.channel_count(),
{
    let mut notifications: Vec<Notification> = Vec::new();
    if let Some(url) = alert.get_webhook_url() {
        notifications.push(
            Notification::Webhook(
                webhook_message(url, alert.get_cooler(), alert.get_loan_id(), days),
            ),
        );
    }
    if let Some(receiver) = alert.get_email() {
        notifications.push(
            Notification::Email(
                email_message(receiver, alert.get_cooler(), alert.get_loan_id(), days),
            ),
        );
    }
    assert(notifications_view(notifications@) =~= spec_dispatch(alert@, days as nat));
    notifications
}

} // verus!
