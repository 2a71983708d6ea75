//! A rich message as chat services show it: a title, a text, a list of
//! named fields, a footer and a colour.

use vstd::prelude::*;
use crate::text::option_view;

verus! {

/// The colour of a message that warns or reports a failure.
pub const COLOR_WARNING: u32 = 0xDB4B4B;

/// The colour of a message that confirms.
pub const COLOR_SUCCESS: u32 = 0x2AC3DE;

/// The colour of a message that lists.
pub const COLOR_NEUTRAL: u32 = 0xC7D5E8;

/// One named field of a message.
#[derive(Debug)]
pub struct EmbedField {
    pub name: String,
    pub value: String,
    pub inline: bool,
}

pub struct EmbedFieldView {
    pub name: Seq<char>,
    pub value: Seq<char>,
    pub inline: bool,
}

impl View for EmbedField {
    type V = EmbedFieldView;

    open spec fn view(&self) -> EmbedFieldView {
        EmbedFieldView { name: self.name@, value: self.value@, inline: self.inline }
    }
}

/// A rich message. A part that is not set is absent from what is shown.
#[derive(Debug)]
pub struct Embed {
    pub title: Option<String>,
    pub description: Option<String>,
    pub fields: Vec<EmbedField>,
    pub footer: Option<String>,
    pub color: Option<u32>,
}

pub struct EmbedView {
    pub title: Option<Seq<char>>,
    pub description: Option<Seq<char>>,
    pub fields: Seq<EmbedFieldView>,
    pub footer: Option<Seq<char>>,
    pub color: Option<u32>,
}

/// The views of a sequence of fields, in order.
pub open spec fn fields_view(fields: Seq<EmbedField>) -> Seq<EmbedFieldView> {
    fields.map_values(|f: EmbedField| f@)
}

impl View for Embed {
    type V = EmbedView;

    open spec fn view(&self) -> EmbedView {
        EmbedView {
            title: option_view(self.title),
            description: option_view(self.description),
            fields: fields_view(self.fields@),
            footer: option_view(self.footer),
            color: self.color,
        }
    }
}

/// A field with the given name and value.
pub open spec fn spec_field(name: Seq<char>, value: Seq<char>, inline: bool) -> EmbedFieldView {
    EmbedFieldView { name, value, inline }
}

/// The sentence that points the reader to the list of their alerts.
pub open spec fn spec_reminder() -> Seq<char> {
    "Remember that you can check your current alerts by using the slash command /list_alerts."@
}

/// The link to a contract, as the text of a message shows it.
pub open spec fn spec_contract_link(cooler: Seq<char>) -> Seq<char> {
    "Cooler Contract: ["@ + cooler + "](https://www.etherscan.io/address/"@ + cooler + ")"@
}

/// A field with the given name and value.
pub fn field(name: &str, value: String, inline: bool) -> (r: EmbedField)
    ensures
        r@ == spec_field(name@, value@, inline),
{
    EmbedField { name: name.to_owned(), value, inline }
}

/// The sentence that points the reader to the list of their alerts.
pub fn reminder() -> (r: String)
    ensures
        r@ == spec_reminder(),
{
    "Remember that you can check your current alerts by using the slash command /list_alerts.".to_owned()
}

/// The link to a contract, as the text of a message shows it.
pub fn contract_link(cooler: &str) -> (r: String)
    ensures
        r@ == spec_contract_link(cooler@),
{
    let mut text = "Cooler Contract: [".to_owned();
    text.append(cooler);
    text.append("](https://www.etherscan.io/address/");
    text.append(cooler);
    text.append(")");
    text
}

/// Adds a field at the end of a list of fields.
pub fn push_field(fields: &mut Vec<EmbedField>, name: &str, value: String, inline: bool)
    ensures
        fields_view(final(fields)@) == fields_view(old(fields)@).push(
            spec_field(name@, value@, inline),
        ),
{
    fields.push(field(name, value, inline));
    assert(fields_view(fields@) =~= fields_view(old(fields)@).push(
        spec_field(name@, value@, inline),
    ));
}

} // verus!
