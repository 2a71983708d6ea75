//! The alert record and the storage error.

use vstd::prelude::*;
use crate::text::option_view;

verus! {

/// A failure reported by the storage layer, with its message.
#[derive(Debug)]
pub struct ErrorDB(String);

impl ErrorDB {
    /// The message the error carries.
    pub closed spec fn view(&self) -> Seq<char> {
        self.0@
    }

    pub fn new(message: &str) -> (r: Self)
        ensures
            r@ == message@,
    {
        ErrorDB(message.to_owned())
    }

    /// The message, as text for a reply or a log line.
    pub fn message(&self) -> (r: String)
        ensures
            r@ == self@,
    {
        self.0.clone()
    }
}

/// What an alert record holds, as mathematical values.
pub struct AlertView {
    pub alert_id: int,
    pub user_id: int,
    /// The identifier of the rule that backs the alert at the rule engine,
    /// where there is one.
    pub external_rule_id: Option<i64>,
    pub cooler: Seq<char>,
    pub loan_id: int,
    pub threshold: int,
    pub webhook_url: Option<Seq<char>>,
    pub email: Option<Seq<char>>,
    pub active: bool,
}

impl AlertView {
    /// At least one delivery channel is configured.
    pub open spec fn has_channel(self) -> bool {
        self.webhook_url is Some || self.email is Some
    }

    /// The number of configured delivery channels.
    pub open spec fn channel_count(self) -> nat {
        let hooks: nat = if self.webhook_url is Some { 1 } else { 0 };
        let mails: nat = if self.email is Some { 1 } else { 0 };
        hooks + mails
    }

    /// The record obeys the rules of the creation path: a threshold that is
    /// not negative and at least one delivery channel.
    pub open spec fn well_formed(self) -> bool {
        self.threshold >= 0 && self.has_channel()
    }
}

/// One user's monitoring request, as the engine reads it. Its fields are
/// private; a record comes into being from a stored row.
#[derive(Debug)]
pub struct AlertDB {
    alert_id: i64,
    user_id: i64,
    external_rule_id: Option<i64>,
    cooler: String,
    loan_id: i64,
    threshold: i64,
    webhook_url: Option<String>,
    email: Option<String>,
    active: bool,
}

impl View for AlertDB {
    type V = AlertView;

    closed spec fn view(&self) -> AlertView {
        AlertView {
            alert_id: self.alert_id as int,
            user_id: self.user_id as int,
            external_rule_id: self.external_rule_id,
            cooler: self.cooler@,
            loan_id: self.loan_id as int,
            threshold: self.threshold as int,
            webhook_url: option_view(self.webhook_url),
            email: option_view(self.email),
            active: self.active,
        }
    }
}

impl AlertDB {
    pub fn get_alert_id(&self) -> (r: i64)
        ensures
            r == self@.alert_id,
    {
        self.alert_id
    }

    pub fn get_user_id(&self) -> (r: i64)
        ensures
            r == self@.user_id,
    {
        self.user_id
    }

    pub fn get_external_rule_id(&self) -> (r: Option<i64>)
        ensures
            r == self@.external_rule_id,
    {
        self.external_rule_id
    }

    pub fn get_cooler(&self) -> (r: &str)
        ensures
            r@ == self@.cooler,
    {
        self.cooler.as_str()
    }

    pub fn get_loan_id(&self) -> (r: i64)
        ensures
            r == self@.loan_id,
    {
        self.loan_id
    }

    pub fn get_threshold(&self) -> (r: i64)
        ensures
            r == self@.threshold,
    {
        self.threshold
    }

    pub fn get_webhook_url(&self) -> (r: Option<&str>)
        ensures
            r is Some == self@.webhook_url is Some,
            r is Some ==> r->0@ == self@.webhook_url->0,
    {
        match &self.webhook_url {
            Some(webhook_url) => Some(webhook_url.as_str()),
            None => None,
        }
    }

    pub fn get_email(&self) -> (r: Option<&str>)
        ensures
            r is Some == self@.email is Some,
            r is Some ==> r->0@ == self@.email->0,
    {
        match &self.email {
            Some(email) => Some(email.as_str()),
            None => None,
        }
    }

    pub fn is_active(&self) -> (r: bool)
        ensures
            r == self@.active,
    {
        self.active
    }

    /// Whether the record obeys the rules of the creation path.
    pub fn is_well_formed(&self) -> (r: bool)
        ensures
            r == self@.well_formed(),
    {
        self.threshold >= 0 && (self.webhook_url.is_some() || self.email.is_some())
    }

    /// A second record with the same contents.
    pub fn duplicate(&self) -> (r: AlertDB)
        ensures
            r@ == self@,
    {
        AlertDB {
            alert_id: self.alert_id,
            user_id: self.user_id,
            external_rule_id: self.external_rule_id,
            cooler: self.cooler.clone(),
            loan_id: self.loan_id,
            threshold: self.threshold,
            webhook_url: crate::text::clone_option(&self.webhook_url),
            email: crate::text::clone_option(&self.email),
            active: self.active,
        }
    }
}

/// A stored row as the storage layer hands it over, every column public.
#[derive(Debug)]
pub struct SqlxAlertDB {
    pub alert_id: i64,
    pub user_id: i64,
    pub external_rule_id: Option<i64>,
    pub cooler: String,
    pub loan_id: i64,
    pub threshold: i64,
    pub webhook_url: Option<String>,
    pub email: Option<String>,
    pub active: bool,
}

impl View for SqlxAlertDB {
    type V = AlertView;

    open spec fn view(&self) -> AlertView {
        AlertView {
            alert_id: self.alert_id as int,
            user_id: self.user_id as int,
            external_rule_id: self.external_rule_id,
            cooler: self.cooler@,
            loan_id: self.loan_id as int,
            threshold: self.threshold as int,
            webhook_url: option_view(self.webhook_url),
            email: option_view(self.email),
            active: self.active,
        }
    }
}

impl From<SqlxAlertDB> for AlertDB {
    /// The record of a row: every column carried over unchanged.
    fn from(item: SqlxAlertDB) -> (r: AlertDB)
        ensures
            r@ == item@,
    {
        AlertDB {
            alert_id: item.alert_id,
            user_id: item.user_id,
            external_rule_id: item.external_rule_id,
            cooler: item.cooler,
            loan_id: item.loan_id,
            threshold: item.threshold,
            webhook_url: item.webhook_url,
            email: item.email,
            active: item.active,
        }
    }
}

impl vstd::std_specs::convert::FromSpecImpl<SqlxAlertDB> for AlertDB {
    open spec fn obeys_from_spec() -> bool {
        true
    }

    closed spec fn from_spec(item: SqlxAlertDB) -> AlertDB {
        AlertDB {
            alert_id: item.alert_id,
            user_id: item.user_id,
            external_rule_id: item.external_rule_id,
            cooler: item.cooler,
            loan_id: item.loan_id,
            threshold: item.threshold,
            webhook_url: item.webhook_url,
            email: item.email,
            active: item.active,
        }
    }
}

/// The views of a sequence of records, in order.
pub open spec fn alerts_view(alerts: Seq<AlertDB>) -> Seq<AlertView> {
    alerts.map_values(|a: AlertDB| a@)
}

/// The views of a sequence of rows, in order.
pub open spec fn rows_view(rows: Seq<SqlxAlertDB>) -> Seq<AlertView> {
    rows.map_values(|a: SqlxAlertDB| a@)
}

/// The records of the rows a query returned, in the order of the rows.
pub fn from_rows(rows: Vec<SqlxAlertDB>) -> (alerts: Vec<AlertDB>)
    ensures
        alerts_view(alerts@) == rows_view(rows@),
{
    let mut alerts: Vec<AlertDB> = Vec::new();
    let mut i: usize = 0;
    while i < rows.len()
        invariant
            i <= rows.len(),
            alerts.len() == i,
            forall|k: int| 0 <= k < i ==> alerts@[k]@ == rows@[k]@,
        decreases rows.len() - i,
    {
        let row = &rows[i];
        let copy = SqlxAlertDB {
            alert_id: row.alert_id,
            user_id: row.user_id,
            external_rule_id: row.external_rule_id,
            cooler: row.cooler.clone(),
            loan_id: row.loan_id,
            threshold: row.threshold,
            webhook_url: crate::text::clone_option(&row.webhook_url),
            email: crate::text::clone_option(&row.email),
            active: row.active,
        };
        alerts.push(AlertDB::from(copy));
        i = i + 1;
    }
    assert(alerts_view(alerts@) =~= rows_view(rows@));
    alerts
}

} // verus!
