//! The jumbotron component: a prominent banner with a title and a
//! subtitle.

use vstd::prelude::*;
use crate::content::{Content, ContentField, ContentFieldV, find_field, lookup_field, make_field};
use crate::errors::{DecodeError, DecodeErrorV};

verus! {

/// The discriminator tag of the jumbotron component.
pub open spec fn jumbotron_tag() -> Seq<char> {
    "SDUIJumbotronComponent"@
}

/// The jumbotron's title field name.
pub open spec fn jumbotron_title_field() -> Seq<char> {
    "title"@
}

/// The jumbotron's subtitle field name.
pub open spec fn jumbotron_subtitle_field() -> Seq<char> {
    "subtitle"@
}

/// A jumbotron: a banner headline with a subtitle.
#[derive(Clone, Debug, PartialEq, Eq)]
pub struct SDUIJumbotronComponent {
    pub title: String,
    pub subtitle: String,
}

/// Spec-level model of a jumbotron.
#[verifier::ext_equal]
pub struct SDUIJumbotronComponentV {
    pub title: Seq<char>,
    pub subtitle: Seq<char>,
}

impl View for SDUIJumbotronComponent {
    type V = SDUIJumbotronComponentV;

    open spec fn view(&self) -> SDUIJumbotronComponentV {
        SDUIJumbotronComponentV { title: self.title@, subtitle: self.subtitle@ }
    }
}

impl SDUIJumbotronComponentV {
    /// Any title and subtitle make a well-formed jumbotron.
    pub open spec fn wf(self) -> bool {
        true
    }
}

/// What decoding a jumbotron's content block yields: both fields must be
/// present.
pub open spec fn decode_jumbotron_spec(content: Seq<ContentFieldV>) -> Result<
    SDUIJumbotronComponentV,
    DecodeErrorV,
> {
    match lookup_field(content, jumbotron_title_field()) {
        None => Err(
            DecodeErrorV::MissingField { kind_tag: jumbotron_tag(), field: jumbotron_title_field() },
        ),
        Some(title) => match lookup_field(content, jumbotron_subtitle_field()) {
            None => Err(
                DecodeErrorV::MissingField {
                    kind_tag: jumbotron_tag(),
                    field: jumbotron_subtitle_field(),
                },
            ),
            Some(subtitle) => Ok(SDUIJumbotronComponentV { title, subtitle }),
        },
    }
}

/// The canonical content block of a jumbotron.
pub open spec fn encode_jumbotron_spec(c: SDUIJumbotronComponentV) -> Seq<ContentFieldV> {
    seq![
        ContentFieldV { name: jumbotron_title_field(), value: c.title },
        ContentFieldV { name: jumbotron_subtitle_field(), value: c.subtitle },
    ]
}

/// Decodes a jumbotron from its content block.
pub fn decode_jumbotron(content: &Content) -> (r: Result<SDUIJumbotronComponent, DecodeError>)
    ensures
        decode_jumbotron_spec(content@) matches Ok(v) ==> (r matches Ok(c) && c@ == v),
        decode_jumbotron_spec(content@) matches Err(e) ==> (r matches Err(d) && d@ == e),
{
    let title = match find_field(content, &String::from_str("title")) {
        Some(v) => v,
        None => {
            return Err(
                DecodeError::MissingField {
                    kind_tag: String::from_str("SDUIJumbotronComponent"),
                    field: String::from_str("title"),
                },
            );
        },
    };
    let subtitle = match find_field(content, &String::from_str("subtitle")) {
        Some(v) => v,
        None => {
            return Err(
                DecodeError::MissingField {
                    kind_tag: String::from_str("SDUIJumbotronComponent"),
                    field: String::from_str("subtitle"),
                },
            );
        },
    };
    Ok(SDUIJumbotronComponent { title, subtitle })
}

impl SDUIJumbotronComponent {
    /// Emits the jumbotron's canonical content block.
    pub fn encode_content(&self) -> (r: Content)
        ensures
            r@ == encode_jumbotron_spec(self@),
    {
        let mut fields: Vec<ContentField> = Vec::new();
        fields.push(make_field("title", self.title.as_str()));
        fields.push(make_field("subtitle", self.subtitle.as_str()));
        let c = Content { fields };
        proof {
            assert(c@ =~= encode_jumbotron_spec(self@));
        }
        c
    }
}

/// Decoding a jumbotron's canonical content block restores the jumbotron.
pub proof fn lemma_jumbotron_round_trip(c: SDUIJumbotronComponentV)
    ensures
        decode_jumbotron_spec(encode_jumbotron_spec(c)) == Ok::<
            SDUIJumbotronComponentV,
            DecodeErrorV,
        >(c),
{
    reveal_strlit("title");
    reveal_strlit("subtitle");
    let content = encode_jumbotron_spec(c);
    assert(jumbotron_title_field().len() == 5);
    assert(jumbotron_subtitle_field().len() == 8);
    assert(jumbotron_title_field() != jumbotron_subtitle_field());
    assert(lookup_field(content, jumbotron_title_field()) == Some(c.title));
    assert(content.drop_first() =~= seq![
        ContentFieldV { name: jumbotron_subtitle_field(), value: c.subtitle },
    ]);
    assert(lookup_field(content.drop_first(), jumbotron_subtitle_field()) == Some(c.subtitle));
    assert(lookup_field(content, jumbotron_subtitle_field()) == Some(c.subtitle));
    assert(SDUIJumbotronComponentV { title: c.title, subtitle: c.subtitle } =~= c);
}

} // verus!
