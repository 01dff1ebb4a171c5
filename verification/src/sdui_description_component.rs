//! The description component: one block of body text.

use vstd::prelude::*;
use crate::content::{Content, ContentField, ContentFieldV, find_field, lookup_field, make_field};
use crate::errors::{DecodeError, DecodeErrorV};

verus! {

/// The discriminator tag of the description component.
pub open spec fn description_tag() -> Seq<char> {
    "SDUIDescriptionComponent"@
}

/// The description's text field name.
pub open spec fn description_text_field() -> Seq<char> {
    "text"@
}

/// A description: a block of body text.
#[derive(Clone, Debug, PartialEq, Eq)]
pub struct SDUIDescriptionComponent {
    pub text: String,
}

/// Spec-level model of a description.
#[verifier::ext_equal]
pub struct SDUIDescriptionComponentV {
    pub text: Seq<char>,
}

impl View for SDUIDescriptionComponent {
    type V = SDUIDescriptionComponentV;

    open spec fn view(&self) -> SDUIDescriptionComponentV {
        SDUIDescriptionComponentV { text: self.text@ }
    }
}

impl SDUIDescriptionComponentV {
    /// Any text, the empty one included, makes a well-formed description.
    pub open spec fn wf(self) -> bool {
        true
    }
}

/// What decoding a description's content block yields: the text field must
/// be present.
pub open spec fn decode_description_spec(content: Seq<ContentFieldV>) -> Result<
    SDUIDescriptionComponentV,
    DecodeErrorV,
> {
    match lookup_field(content, description_text_field()) {
        None => Err(
            DecodeErrorV::MissingField {
                kind_tag: description_tag(),
                field: description_text_field(),
            },
        ),
        Some(text) => Ok(SDUIDescriptionComponentV { text }),
    }
}

/// The canonical content block of a description.
pub open spec fn encode_description_spec(c: SDUIDescriptionComponentV) -> Seq<ContentFieldV> {
    seq![ContentFieldV { name: description_text_field(), value: c.text }]
}

/// Decodes a description from its content block.
pub fn decode_description(content: &Content) -> (r: Result<SDUIDescriptionComponent, DecodeError>)
    ensures
        decode_description_spec(content@) matches Ok(v) ==> (r matches Ok(c) && c@ == v),
        decode_description_spec(content@) matches Err(e) ==> (r matches Err(d) && d@ == e),
{
    let text = match find_field(content, &String::from_str("text")) {
        Some(v) => v,
        None => {
            return Err(
                DecodeError::MissingField {
                    kind_tag: String::from_str("SDUIDescriptionComponent"),
                    field: String::from_str("text"),
                },
            );
        },
    };
    Ok(SDUIDescriptionComponent { text })
}

impl SDUIDescriptionComponent {
    /// Emits the description's canonical content block.
    pub fn encode_content(&self) -> (r: Content)
        ensures
            r@ == encode_description_spec(self@),
    {
        let mut fields: Vec<ContentField> = Vec::new();
        fields.push(make_field("text", self.text.as_str()));
        let c = Content { fields };
        proof {
            assert(c@ =~= encode_description_spec(self@));
        }
        c
    }
}

/// Decoding a description's canonical content block restores the
/// description.
pub proof fn lemma_description_round_trip(c: SDUIDescriptionComponentV)
    ensures
        decode_description_spec(encode_description_spec(c)) == Ok::<
            SDUIDescriptionComponentV,
            DecodeErrorV,
        >(c),
{
    let content = encode_description_spec(c);
    assert(lookup_field(content, description_text_field()) == Some(c.text));
    assert(SDUIDescriptionComponentV { text: c.text } =~= c);
}

} // verus!
