//! What the three commands share: the description of a command, the values
//! of its options, and the reply to a failure.

use vstd::prelude::*;
use vstd::string::*;
use crate::message::{
    fields_view, push_field, spec_field, Embed, EmbedField, EmbedView, COLOR_WARNING,
};
use crate::registry::types::ErrorDB;
use crate::text::str_equal;

pub mod create_alert;
pub mod delete_alerts;
pub mod list_alerts;

verus! {

/// The kind of value an option takes.
#[derive(Debug, Clone, Copy, PartialEq, Eq, Structural)]
pub enum OptionKind {
    String,
    Integer,
}

/// One option of a command, as it is announced to the chat service.
#[derive(Debug)]
pub struct OptionDescription {
    pub name: String,
    pub description: String,
    pub kind: OptionKind,
    pub required: bool,
    /// The least and the greatest length of a text, where one is set.
    pub min_length: Option<u16>,
    pub max_length: Option<u16>,
    /// The least value of a number, where one is set.
    pub min_int_value: Option<i64>,
}

pub struct OptionDescriptionView {
    pub name: Seq<char>,
    pub description: Seq<char>,
    pub kind: OptionKind,
    pub required: bool,
    pub min_length: Option<u16>,
    pub max_length: Option<u16>,
    pub min_int_value: Option<i64>,
}

impl View for OptionDescription {
    type V = OptionDescriptionView;

    open spec fn view(&self) -> OptionDescriptionView {
        OptionDescriptionView {
            name: self.name@,
            description: self.description@,
            kind: self.kind,
            required: self.required,
            min_length: self.min_length,
            max_length: self.max_length,
            min_int_value: self.min_int_value,
        }
    }
}

/// A command, as it is announced to the chat service.
#[derive(Debug)]
pub struct CommandDescription {
    pub name: String,
    pub description: String,
    pub options: Vec<OptionDescription>,
}

pub struct CommandDescriptionView {
    pub name: Seq<char>,
    pub description: Seq<char>,
    pub options: Seq<OptionDescriptionView>,
}

/// The views of a sequence of options, in order.
pub open spec fn options_view(options: Seq<OptionDescription>) -> Seq<OptionDescriptionView> {
    options.map_values(|o: OptionDescription| o@)
}

impl View for CommandDescription {
    type V = CommandDescriptionView;

    open spec fn view(&self) -> CommandDescriptionView {
        CommandDescriptionView {
            name: self.name@,
            description: self.description@,
            options: options_view(self.options@),
        }
    }
}

/// The option that names the contract: a text of exactly 42 characters, the
/// length of an address.
pub open spec fn spec_cooler_option() -> OptionDescriptionView {
    OptionDescriptionView {
        name: "cooler"@,
        description: "The address of the Cooler contract. Must starts with `0x`."@,
        kind: OptionKind::String,
        required: true,
        min_length: Some(42u16),
        max_length: Some(42u16),
        min_int_value: None,
    }
}

/// The option that names the contract.
pub fn cooler_option() -> (r: OptionDescription)
    ensures
        r@ == spec_cooler_option(),
{
    OptionDescription {
        name: "cooler".to_owned(),
        description: "The address of the Cooler contract. Must starts with `0x`.".to_owned(),
        kind: OptionKind::String,
        required: true,
        min_length: Some(42),
        max_length: Some(42),
        min_int_value: None,
    }
}

/// An option that takes a number.
pub open spec fn spec_integer_option(
    name: Seq<char>,
    description: Seq<char>,
    required: bool,
    min_int_value: Option<i64>,
) -> OptionDescriptionView {
    OptionDescriptionView {
        name: name,
        description: description,
        kind: OptionKind::Integer,
        required: required,
        min_length: None,
        max_length: None,
        min_int_value: min_int_value,
    }
}

/// An option that takes a number.
pub fn integer_option(name: &str, description: &str, required: bool, min_int_value: Option<i64>) -> (r:
    OptionDescription)
    ensures
        r@ == spec_integer_option(name@, description@, required, min_int_value),
{
    OptionDescription {
        name: name.to_owned(),
        description: description.to_owned(),
        kind: OptionKind::Integer,
        required,
        min_length: None,
        max_length: None,
        min_int_value,
    }
}

/// An option that takes a text of any length and may be left out.
pub open spec fn spec_text_option(name: Seq<char>, description: Seq<char>) -> OptionDescriptionView {
    OptionDescriptionView {
        name: name,
        description: description,
        kind: OptionKind::String,
        required: false,
        min_length: None,
        max_length: None,
        min_int_value: None,
    }
}

/// An option that takes a text of any length and may be left out.
pub fn text_option(name: &str, description: &str) -> (r: OptionDescription)
    ensures
        r@ == spec_text_option(name@, description@),
{
    OptionDescription {
        name: name.to_owned(),
        description: description.to_owned(),
        kind: OptionKind::String,
        required: false,
        min_length: None,
        max_length: None,
        min_int_value: None,
    }
}

/// The value a user gave for an option.
#[derive(Debug)]
pub enum OptionValue {
    Text(String),
    Integer(i64),
    /// A value of another kind.
    Other,
}

/// An option as it arrives with a command: its value, if it has one.
#[derive(Debug)]
pub struct CommandOption {
    pub value: Option<OptionValue>,
}

impl CommandOption {
    /// The text of the option, where its value is a text.
    pub open spec fn spec_text(self) -> Option<Seq<char>> {
        match self.value {
            Some(OptionValue::Text(text)) => Some(text@),
            _ => None,
        }
    }

    /// The number of the option, where its value is a number.
    pub open spec fn spec_integer(self) -> Option<i64> {
        match self.value {
            Some(OptionValue::Integer(number)) => Some(number),
            _ => None,
        }
    }

    /// The text of the option, where its value is a text.
    pub fn text(&self) -> (r: Option<&str>)
        ensures
            r is Some == self.spec_text() is Some,
            r is Some ==> r->0@ == self.spec_text()->0,
    {
        match &self.value {
            Some(OptionValue::Text(text)) => Some(text.as_str()),
            _ => None,
        }
    }

    /// The number of the option, where its value is a number.
    pub fn integer(&self) -> (r: Option<i64>)
        ensures
            r == self.spec_integer(),
    {
        match &self.value {
            Some(OptionValue::Integer(number)) => Some(*number),
            _ => None,
        }
    }
}

/// The three commands.
#[derive(Debug, Clone, Copy, PartialEq, Eq, Structural)]
pub enum Command {
    ListAlerts,
    CreateAlert,
    DeleteAlerts,
}

impl Command {
    /// The command with the given name, if there is one.
    pub open spec fn spec_from_name(name: Seq<char>) -> Option<Command> {
        if name == "list_alerts"@ {
            Some(Command::ListAlerts)
        } else if name == "create_alert"@ {
            Some(Command::CreateAlert)
        } else if name == "delete_alerts"@ {
            Some(Command::DeleteAlerts)
        } else {
            None
        }
    }

    /// Finds the command a user called by its name.
    pub fn from_name(name: &str) -> (r: Option<Command>)
        ensures
            r == Self::spec_from_name(name@),
    {
        if str_equal(name, "list_alerts") {
            Some(Command::ListAlerts)
        } else if str_equal(name, "create_alert") {
            Some(Command::CreateAlert)
        } else if str_equal(name, "delete_alerts") {
            Some(Command::DeleteAlerts)
        } else {
            None
        }
    }
}

/// The reply to a name that is no command.
pub open spec fn spec_not_implemented() -> EmbedView {
    EmbedView {
        title: Some("not implemented :("@),
        description: None,
        fields: seq![],
        footer: None,
        color: None,
    }
}

/// The reply to a name that is no command.
pub fn not_implemented() -> (r: Embed)
    ensures
        r@ == spec_not_implemented(),
{
    let fields: Vec<EmbedField> = Vec::new();
    assert(fields_view(fields@) =~= seq![]);
    Embed {
        title: Some("not implemented :(".to_owned()),
        description: None,
        fields,
        footer: None,
        color: None,
    }
}

/// The reply to a failure: what went wrong, and the error's message where
/// an error came with it.
pub open spec fn spec_failure(description: Seq<char>, error: Option<Seq<char>>) -> EmbedView {
    EmbedView {
        title: Some("Something went wrong!"@),
        description: Some(description),
        fields: match error {
            Some(message) => seq![spec_field("Error"@, message, false)],
            None => seq![],
        },
        footer: None,
        color: Some(COLOR_WARNING),
    }
}

/// The reply to a failure.
pub fn failure(description: &str, error: Option<&ErrorDB>) -> (r: Embed)
    ensures
        r@ == spec_failure(
            description@,
            match error {
                Some(e) => Some(e@),
                None => None,
            },
        ),
{
    let mut fields: Vec<EmbedField> = Vec::new();
    assert(fields_view(fields@) =~= seq![]);
    match error {
        Some(e) => {
            push_field(&mut fields, "Error", e.message(), false);
            assert(fields_view(fields@) =~= seq![spec_field("Error"@, e@, false)]);
        },
        None => {},
    }
    Embed {
        title: Some("Something went wrong!".to_owned()),
        description: Some(description.to_owned()),
        fields,
        footer: None,
        color: Some(COLOR_WARNING),
    }
}

/// The text that says a number of days.
pub open spec fn spec_threshold_text(threshold: int) -> Seq<char> {
    crate::text::decimal_int(threshold) + " days"@
}

/// The text that says a number of days.
pub fn threshold_text(threshold: i64) -> (r: String)
    ensures
        r@ == spec_threshold_text(threshold as int),
{
    let mut text = crate::text::decimal_i64(threshold);
    text.append(" days");
    text
}

} // verus!
