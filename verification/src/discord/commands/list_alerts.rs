//! The command that lists a user's alerts.

use vstd::prelude::*;
use vstd::string::*;
use crate::discord::commands::{
    failure, options_view, spec_failure, spec_threshold_text, threshold_text, CommandDescription,
    CommandDescriptionView, OptionDescription,
};
use crate::message::{
    fields_view, push_field, spec_field, Embed, EmbedField, EmbedFieldView, EmbedView,
    COLOR_NEUTRAL,
};
use crate::registry::types::{alerts_view, AlertDB, AlertView, ErrorDB};
use crate::registry::utils::{mark, spec_mark};
use crate::text::{decimal_i64, decimal_int, decimal_nat, decimal_u64};

verus! {

pub open spec fn spec_register() -> CommandDescriptionView {
    CommandDescriptionView {
        name: "list_alerts"@,
        description: "List all user alerts"@,
        options: seq![],
    }
}

/// The command as it is announced: it takes no option.
pub fn register() -> (r: CommandDescription)
    ensures
        r@ == spec_register(),
{
    let options: Vec<OptionDescription> = Vec::new();
    assert(options_view(options@) =~= seq![]);
    CommandDescription {
        name: "list_alerts".to_owned(),
        description: "List all user alerts".to_owned(),
        options,
    }
}

/// The fields that show one alert: two blank lines, then the contract, the
/// loan, the threshold, a mark for each channel, and a mark that says
/// whether the alert has triggered, which is when it is no longer active.
pub open spec fn spec_alert_fields(alert: AlertView) -> Seq<EmbedFieldView> {
    seq![
        spec_field(" "@, " "@, false),
        spec_field(" "@, " "@, false),
        spec_field("Cooler Contract"@, alert.cooler, true),
        spec_field("Loan ID"@, decimal_int(alert.loan_id), true),
        spec_field("Alert threshold"@, spec_threshold_text(alert.threshold), true),
        spec_field("Webhook Notification?"@, spec_mark(alert.webhook_url is Some), true),
        spec_field("Email Notification?"@, spec_mark(alert.email is Some), true),
        spec_field("Already Triggered?"@, spec_mark(!alert.active), true),
    ]
}

/// The fields of the list for the first `n` alerts: a blank line, then the
/// fields of each alert in order.
pub open spec fn spec_list_fields(alerts: Seq<AlertView>, n: nat) -> Seq<EmbedFieldView>
    decreases n,
{
    if n == 0 {
        seq![spec_field(" "@, " "@, false)]
    } else {
        spec_list_fields(alerts, (n - 1) as nat) + spec_alert_fields(alerts[n - 1])
    }
}

/// The heading of the list, by the number of alerts.
pub open spec fn spec_list_title(count: nat) -> Seq<char> {
    if count == 0 {
        "You don't have any alerts"@
    } else if count == 1 {
        "You have 1 alert:\n"@
    } else {
        "You have "@ + decimal_nat(count) + " alerts:\n"@
    }
}

/// The reply that lists the alerts of a user.
pub open spec fn spec_list(alerts: Seq<AlertView>) -> EmbedView {
    EmbedView {
        title: Some(spec_list_title(alerts.len())),
        description: if alerts.len() == 0 {
            Some("You can create a new alert by using the slash command /create_alert."@)
        } else {
            None
        },
        fields: spec_list_fields(alerts, alerts.len()),
        footer: None,
        color: Some(COLOR_NEUTRAL),
    }
}

/// The reply of the command: the list where storage returned the alerts,
/// else the failure with the error's message.
pub open spec fn spec_run(alerts: Result<Seq<AlertView>, Seq<char>>) -> EmbedView {
    match alerts {
        Ok(alerts) => spec_list(alerts),
        Err(message) => spec_failure(
            "Unable to retrieve alerts form the DB. Please try again."@,
            Some(message),
        ),
    }
}

fn push_alert_fields(fields: &mut Vec<EmbedField>, alert: &AlertDB)
    ensures
        fields_view(final(fields)@) == fields_view(old(fields)@) + spec_alert_fields(alert@),
{
    push_field(fields, " ", " ".to_owned(), false);
    push_field(fields, " ", " ".to_owned(), false);
    push_field(fields, "Cooler Contract", alert.get_cooler().to_owned(), true);
    push_field(fields, "Loan ID", decimal_i64(alert.get_loan_id()), true);
    push_field(fields, "Alert threshold", threshold_text(alert.get_threshold()), true);
    push_field(fields, "Webhook Notification?", mark(alert.get_webhook_url().is_some()), true);
    push_field(fields, "Email Notification?", mark(alert.get_email().is_some()), true);
    push_field(fields, "Already Triggered?", mark(!alert.is_active()), true);
    assert(fields_view(fields@) =~= fields_view(old(fields)@) + spec_alert_fields(alert@));
}

fn list_title(count: usize) -> (r: String)
    ensures
        r@ == spec_list_title(count as nat),
{
    if count == 0 {
        "You don't have any alerts".to_owned()
    } else if count == 1 {
        "You have 1 alert:\n".to_owned()
    } else {
        let mut title = "You have ".to_owned();
        let number = decimal_u64(count as u64);
        title.append(number.as_str());
        title.append(" alerts:\n");
        title
    }
}

/// The reply that lists the alerts of a user.
pub fn list(alerts: &Vec<AlertDB>) -> (r: Embed)
    ensures
        r@ == spec_list(alerts_view(alerts@)),
{
    let mut fields: Vec<EmbedField> = Vec::new();
    assert(fields_view(fields@) =~= seq![]);
    push_field(&mut fields, " ", " ".to_owned(), false);
    let ghost all = alerts_view(alerts@);
    assert(fields_view(fields@) =~= spec_list_fields(all, 0));
    let mut i: usize = 0;
    while i < alerts.len()
        invariant
            i <= alerts.len(),
            all == alerts_view(alerts@),
            fields_view(fields@) == spec_list_fields(all, i as nat),
        decreases alerts.len() - i,
    {
        push_alert_fields(&mut fields, &alerts[i]);
        i = i + 1;
    }
    let description = if alerts.len() == 0 {
        Some("You can create a new alert by using the slash command /create_alert.".to_owned())
    } else {
        None
    };
    Embed {
        title: Some(list_title(alerts.len())),
        description,
        fields,
        footer: None,
        color: Some(COLOR_NEUTRAL),
    }
}

/// Answers the command with what storage returned for the user's alerts.
pub fn run(alerts: Result<Vec<AlertDB>, ErrorDB>) -> (r: Embed)
    ensures
        r@ == spec_run(
            match alerts {
                Ok(found) => Ok(alerts_view(found@)),
                Err(error) => Err(error@),
            },
        ),
{
    match alerts {
        Ok(found) => list(&found),
        Err(error) => failure(
            "Unable to retrieve alerts form the DB. Please try again.",
            Some(&error),
        ),
    }
}

} // verus!
