//! The command that deletes the alerts of a contract, or of one of its
//! loans.

use vstd::prelude::*;
use vstd::string::*;
use crate::discord::commands::{
    cooler_option, failure, integer_option, options_view, spec_cooler_option, spec_failure,
    spec_integer_option, CommandDescription, CommandDescriptionView, CommandOption,
    OptionDescription,
};
use crate::message::{
    contract_link, fields_view, push_field, reminder, spec_contract_link, spec_field,
    spec_reminder, Embed, EmbedField, EmbedView, COLOR_SUCCESS, COLOR_WARNING,
};
use crate::registry::types::{alerts_view, AlertDB, AlertView, ErrorDB};
use crate::text::{decimal_i64, decimal_int, str_equal};

verus! {

pub open spec fn spec_register() -> CommandDescriptionView {
    CommandDescriptionView {
        name: "delete_alerts"@,
        description: "Delete all existing alerts for a given loan."@,
        options: seq![
            spec_cooler_option(),
            spec_integer_option(
                "loan_id"@,
                "If no ID is informed, all alerts for the given Cooler will be deleted."@,
                false,
                None,
            ),
        ],
    }
}

/// The command as it is announced: the contract, which is required, and
/// the loan.
pub fn register() -> (r: CommandDescription)
    ensures
        r@ == spec_register(),
{
    let mut options: Vec<OptionDescription> = Vec::new();
    options.push(cooler_option());
    options.push(
        integer_option(
            "loan_id",
            "If no ID is informed, all alerts for the given Cooler will be deleted.",
            false,
            None,
        ),
    );
    assert(options_view(options@) =~= spec_register().options);
    CommandDescription {
        name: "delete_alerts".to_owned(),
        description: "Delete all existing alerts for a given loan.".to_owned(),
        options,
    }
}

/// The alerts to delete: those of a contract, or of one loan of it.
#[derive(Debug)]
pub struct Selection {
    pub cooler: String,
    pub loan_id: Option<i64>,
}

pub struct SelectionView {
    pub cooler: Seq<char>,
    pub loan_id: Option<i64>,
}

impl View for Selection {
    type V = SelectionView;

    open spec fn view(&self) -> SelectionView {
        SelectionView { cooler: self.cooler@, loan_id: self.loan_id }
    }
}

/// The options of a command are in order: the contract as a text, and a
/// second option, where there is one, with a value.
pub open spec fn required_options(options: Seq<CommandOption>) -> bool {
    &&& options.len() >= 1
    &&& options[0].spec_text() is Some
    &&& options.len() >= 2 ==> options[1].value is Some
}

/// Whether the options of a command are in order.
pub fn has_required_options(options: &Vec<CommandOption>) -> (r: bool)
    ensures
        r == required_options(options@),
{
    options.len() >= 1 && options[0].text().is_some() && (options.len() < 2
        || options[1].value.is_some())
}

/// What the options of a command select: the contract, and the loan where
/// the second option holds a number.
pub open spec fn spec_parse(options: Seq<CommandOption>) -> SelectionView {
    SelectionView {
        cooler: options[0].spec_text()->0,
        loan_id: if options.len() >= 2 {
            options[1].spec_integer()
        } else {
            None
        },
    }
}

/// Reads the options of a command.
pub fn parse(options: &Vec<CommandOption>) -> (r: Selection)
    requires
        required_options(options@),
    ensures
        r@ == spec_parse(options@),
{
    let cooler = match options[0].text() {
        Some(text) => text.to_owned(),
        None => String::new(),
    };
    let loan_id = if options.len() >= 2 {
        options[1].integer()
    } else {
        None
    };
    Selection { cooler, loan_id }
}

/// The reply to a count of the selected alerts that failed.
pub open spec fn spec_count_failed(error: Seq<char>) -> EmbedView {
    spec_failure("Unable to retrieve current alerts form the DB. Please try again."@, Some(error))
}

/// The reply to a count of the selected alerts that failed.
pub fn count_failed(error: &ErrorDB) -> (r: Embed)
    ensures
        r@ == spec_count_failed(error@),
{
    failure("Unable to retrieve current alerts form the DB. Please try again.", Some(error))
}

/// The reply to a deletion that failed.
pub open spec fn spec_delete_failed(error: Seq<char>) -> EmbedView {
    spec_failure("Unable to delete alerts form the DB. Please try again."@, Some(error))
}

/// The reply to a deletion that failed.
pub fn delete_failed(error: &ErrorDB) -> (r: Embed)
    ensures
        r@ == spec_delete_failed(error@),
{
    failure("Unable to delete alerts form the DB. Please try again.", Some(error))
}

/// The reply to a selection that holds no alert.
pub open spec fn spec_none_found(cooler: Seq<char>) -> EmbedView {
    EmbedView {
        title: Some("No alerts found"@),
        description: Some(spec_contract_link(cooler)),
        fields: seq![spec_field(""@, ""@, false)],
        footer: Some(spec_reminder()),
        color: Some(COLOR_WARNING),
    }
}

/// The reply to a selection that holds no alert.
pub fn none_found(cooler: &str) -> (r: Embed)
    ensures
        r@ == spec_none_found(cooler@),
{
    let mut fields: Vec<EmbedField> = Vec::new();
    assert(fields_view(fields@) =~= seq![]);
    push_field(&mut fields, "", "".to_owned(), false);
    assert(fields_view(fields@) =~= spec_none_found(cooler@).fields);
    Embed {
        title: Some("No alerts found".to_owned()),
        description: Some(contract_link(cooler)),
        fields,
        footer: Some(reminder()),
        color: Some(COLOR_WARNING),
    }
}

/// What follows the count of the selected alerts: where there is none the
/// command ends with a reply and nothing is deleted; else the deletion goes
/// ahead.
pub open spec fn spec_after_count(count: int, selection: SelectionView) -> Option<EmbedView> {
    if count == 0 {
        Some(spec_none_found(selection.cooler))
    } else {
        None
    }
}

/// What follows the count of the selected alerts.
pub fn after_count(count: i32, selection: &Selection) -> (r: Option<Embed>)
    ensures
        match r {
            Some(reply) => spec_after_count(count as int, selection@) == Some(reply@),
            None => spec_after_count(count as int, selection@) is None,
        },
{
    if count == 0 {
        Some(none_found(selection.cooler.as_str()))
    } else {
        None
    }
}

/// An alert is selected when it is of the selected contract and, where a
/// loan is selected, of that loan.
pub open spec fn spec_selected(alert: AlertView, selection: SelectionView) -> bool {
    &&& alert.cooler == selection.cooler
    &&& selection.loan_id matches Some(loan_id) ==> alert.loan_id == loan_id
}

/// The rules that back the selected alerts among the first `n` alerts, in
/// the order of the alerts.
pub open spec fn spec_rules_to_remove(alerts: Seq<AlertView>, selection: SelectionView, n: nat) -> Seq<
    i64,
>
    decreases n,
{
    if n == 0 {
        Seq::<i64>::empty()
    } else {
        let before = spec_rules_to_remove(alerts, selection, (n - 1) as nat);
        let alert = alerts[n - 1];
        if spec_selected(alert, selection) && alert.external_rule_id is Some {
            before.push(alert.external_rule_id->0)
        } else {
            before
        }
    }
}

/// Whether an alert is selected.
pub fn selected(alert: &AlertDB, selection: &Selection) -> (r: bool)
    ensures
        r == spec_selected(alert@, selection@),
{
    str_equal(alert.get_cooler(), selection.cooler.as_str()) && match selection.loan_id {
        Some(loan_id) => alert.get_loan_id() == loan_id,
        None => true,
    }
}

/// The rules of the rule engine that back the selected alerts of a user:
/// they are to be removed before the alerts are deleted.
pub fn rules_to_remove(alerts: &Vec<AlertDB>, selection: &Selection) -> (r: Vec<i64>)
    ensures
        r@ == spec_rules_to_remove(alerts_view(alerts@), selection@, alerts@.len()),
{
    let mut rules: Vec<i64> = Vec::new();
    let mut i: usize = 0;
    let ghost all = alerts_view(alerts@);
    while i < alerts.len()
        invariant
            i <= alerts.len(),
            all == alerts_view(alerts@),
            rules@ == spec_rules_to_remove(all, selection@, i as nat),
        decreases alerts.len() - i,
    {
        if selected(&alerts[i], selection) {
            match alerts[i].get_external_rule_id() {
                Some(rule_id) => {
                    rules.push(rule_id);
                },
                None => {},
            }
        }
        i = i + 1;
    }
    rules
}

/// The reply to a removal of rules that failed.
pub open spec fn spec_rules_not_removed() -> EmbedView {
    spec_failure(
        "Unable to remove the monitoring rules of the alerts. No alert was deleted. Please try again."@,
        None,
    )
}

/// What follows the removal of the rules: where a rule was not removed the
/// command ends with a reply and no alert is deleted, so that no rule is
/// left without its alert; else the deletion goes ahead.
pub open spec fn spec_after_removal(not_removed: Option<Seq<i64>>) -> Option<EmbedView> {
    match not_removed {
        Some(_) => Some(spec_rules_not_removed()),
        None => None,
    }
}

/// What follows the removal of the rules.
pub fn after_removal(removal: &Result<(), Vec<i64>>) -> (r: Option<Embed>)
    ensures
        match r {
            Some(reply) => spec_after_removal(
                match removal {
                    Ok(_) => None,
                    Err(rules) => Some(rules@),
                },
            ) == Some(reply@),
            None => removal is Ok,
        },
{
    match removal {
        Ok(_) => None,
        Err(_) => Some(
            failure(
                "Unable to remove the monitoring rules of the alerts. No alert was deleted. Please try again.",
                None,
            ),
        ),
    }
}

/// The reply that confirms a deletion: the contract, and the loan where
/// one was selected.
pub open spec fn spec_deleted(selection: SelectionView) -> EmbedView {
    EmbedView {
        title: Some("Alerts successfully deleted"@),
        description: Some(spec_contract_link(selection.cooler)),
        fields: match selection.loan_id {
            Some(loan_id) => seq![
                spec_field("Loan ID"@, decimal_int(loan_id as int), false),
                spec_field(""@, ""@, false),
            ],
            None => seq![spec_field(""@, ""@, false)],
        },
        footer: Some(spec_reminder()),
        color: Some(COLOR_SUCCESS),
    }
}

/// The reply that confirms a deletion.
pub fn deleted(selection: &Selection) -> (r: Embed)
    ensures
        r@ == spec_deleted(selection@),
{
    let mut fields: Vec<EmbedField> = Vec::new();
    assert(fields_view(fields@) =~= seq![]);
    match selection.loan_id {
        Some(loan_id) => {
            push_field(&mut fields, "Loan ID", decimal_i64(loan_id), false);
        },
        None => {},
    }
    push_field(&mut fields, "", "".to_owned(), false);
    assert(fields_view(fields@) =~= spec_deleted(selection@).fields);
    Embed {
        title: Some("Alerts successfully deleted".to_owned()),
        description: Some(contract_link(selection.cooler.as_str())),
        fields,
        footer: Some(reminder()),
        color: Some(COLOR_SUCCESS),
    }
}

} // verus!
