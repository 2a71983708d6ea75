//! The rules of the creation path: what is written for a new alert and what
//! the caller is told about its channels.

use vstd::prelude::*;
use vstd::string::*;
use crate::registry::types::{AlertView, ErrorDB, SqlxAlertDB};
use crate::text::option_view;

verus! {

/// The mark shown for a channel that is configured.
pub open spec fn spec_check_mark() -> Seq<char> {
    ":white_check_mark:"@
}

/// The mark shown for a channel that is not configured.
pub open spec fn spec_cross_mark() -> Seq<char> {
    ":x:"@
}

/// The mark for a channel, by whether it is configured.
pub open spec fn spec_mark(configured: bool) -> Seq<char> {
    if configured {
        spec_check_mark()
    } else {
        spec_cross_mark()
    }
}

/// The message of the error for an alert without any delivery channel.
pub open spec fn spec_no_channel_message() -> Seq<char> {
    "Error when trying to create the alert. Please try again!"@
}

/// The mark for a channel, by whether it is configured.
pub fn mark(configured: bool) -> (r: String)
    ensures
        r@ == spec_mark(configured),
{
    if configured {
        ":white_check_mark:".to_owned()
    } else {
        ":x:".to_owned()
    }
}

/// A new alert that passed the rules of the creation path, and the two marks
/// shown to the user: for the email channel and for the webhook channel.
#[derive(Debug)]
pub struct AlertCreation {
    /// The row to insert: it is active, storage assigns its `alert_id`, and
    /// no rule of the rule engine backs it yet.
    pub row: SqlxAlertDB,
    pub email_check: String,
    pub webhook_check: String,
}

/// Checks a new alert before it is stored. An alert needs at least one
/// delivery channel: with neither a webhook nor an email it is rejected.
/// Otherwise the row to insert is returned, active, with the marks that
/// tell the user which channels are configured.
pub fn create_alert(
    user_id: i64,
    cooler: &str,
    loan_id: i64,
    threshold: i64,
    webhook_url: Option<String>,
    email: Option<String>,
) -> (r: Result<AlertCreation, ErrorDB>)
    ensures
        r is Err <==> (webhook_url is None && email is None),
        r is Err ==> r->Err_0@ == spec_no_channel_message(),
        r is Ok ==> r->Ok_0.row@ == (AlertView {
            alert_id: 0,
            user_id: user_id as int,
            external_rule_id: None,
            cooler: cooler@,
            loan_id: loan_id as int,
            threshold: threshold as int,
            webhook_url: option_view(webhook_url),
            email: option_view(email),
            active: true,
        }),
        r is Ok ==> r->Ok_0.email_check@ == spec_mark(email is Some),
        r is Ok ==> r->Ok_0.webhook_check@ == spec_mark(webhook_url is Some),
{
    if webhook_url.is_none() && email.is_none() {
        return Err(ErrorDB::new("Error when trying to create the alert. Please try again!"));
    }
    let email_check = mark(email.is_some());
    let webhook_check = mark(webhook_url.is_some());
    let row = SqlxAlertDB {
        alert_id: 0,
        user_id,
        external_rule_id: None,
        cooler: cooler.to_owned(),
        loan_id,
        threshold,
        webhook_url,
        email,
        active: true,
    };
    Ok(AlertCreation { row, email_check, webhook_check })
}

} // verus!
