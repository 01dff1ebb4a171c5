//! The card component: a titled piece of content with a cover image
//! reference. Its decoder requires both fields and a non-empty title.

use vstd::prelude::*;
use crate::content::{Content, ContentField, ContentFieldV, find_field, lookup_field, make_field};
use crate::errors::{DecodeError, DecodeErrorV};

verus! {

/// The discriminator tag of the card component.
pub open spec fn card_tag() -> Seq<char> {
    "SDUICardComponent"@
}

/// The card's title field name.
pub open spec fn card_title_field() -> Seq<char> {
    "title"@
}

/// The card's image reference field name.
pub open spec fn card_image_url_field() -> Seq<char> {
    "image_url"@
}

/// A card: a non-empty title over a cover image reference.
#[derive(Clone, Debug, PartialEq, Eq)]
pub struct SDUICardComponent {
    pub title: String,
    pub image_url: String,
}

/// Spec-level model of a card.
#[verifier::ext_equal]
pub struct SDUICardComponentV {
    pub title: Seq<char>,
    pub image_url: Seq<char>,
}

impl View for SDUICardComponent {
    type V = SDUICardComponentV;

    open spec fn view(&self) -> SDUICardComponentV {
        SDUICardComponentV { title: self.title@, image_url: self.image_url@ }
    }
}

impl SDUICardComponentV {
    /// A card is well formed when its title is non-empty; decoding enforces
    /// this, so every constructed card satisfies it.
    pub open spec fn wf(self) -> bool {
        self.title.len() > 0
    }
}

/// What decoding a card's content block yields: both fields must be
/// present and the title must be non-empty.
pub open spec fn decode_card_spec(content: Seq<ContentFieldV>) -> Result<
    SDUICardComponentV,
    DecodeErrorV,
> {
    match lookup_field(content, card_title_field()) {
        None => Err(
            DecodeErrorV::MissingField { kind_tag: card_tag(), field: card_title_field() },
        ),
        Some(title) => match lookup_field(content, card_image_url_field()) {
            None => Err(
                DecodeErrorV::MissingField { kind_tag: card_tag(), field: card_image_url_field() },
            ),
            Some(image_url) => if title.len() == 0 {
                Err(DecodeErrorV::InvalidField { kind_tag: card_tag(), field: card_title_field() })
            } else {
                Ok(SDUICardComponentV { title, image_url })
            },
        },
    }
}

/// The canonical content block of a card.
pub open spec fn encode_card_spec(c: SDUICardComponentV) -> Seq<ContentFieldV> {
    seq![
        ContentFieldV { name: card_title_field(), value: c.title },
        ContentFieldV { name: card_image_url_field(), value: c.image_url },
    ]
}

/// Decodes a card from its content block.
pub fn decode_card(content: &Content) -> (r: Result<SDUICardComponent, DecodeError>)
    ensures
        decode_card_spec(content@) matches Ok(v) ==> (r matches Ok(c) && c@ == v),
        decode_card_spec(content@) matches Err(e) ==> (r matches Err(d) && d@ == e),
{
    let title = match find_field(content, &String::from_str("title")) {
        Some(v) => v,
        None => {
            return Err(
                DecodeError::MissingField {
                    kind_tag: String::from_str("SDUICardComponent"),
                    field: String::from_str("title"),
                },
            );
        },
    };
    let image_url = match find_field(content, &String::from_str("image_url")) {
        Some(v) => v,
        None => {
            return Err(
                DecodeError::MissingField {
                    kind_tag: String::from_str("SDUICardComponent"),
                    field: String::from_str("image_url"),
                },
            );
        },
    };
    if title.as_str().is_empty() {
        return Err(
            DecodeError::InvalidField {
                kind_tag: String::from_str("SDUICardComponent"),
                field: String::from_str("title"),
            },
        );
    }
    Ok(SDUICardComponent { title, image_url })
}

impl SDUICardComponent {
    /// Emits the card's canonical content block.
    pub fn encode_content(&self) -> (r: Content)
        ensures
            r@ == encode_card_spec(self@),
    {
        let mut fields: Vec<ContentField> = Vec::new();
        fields.push(make_field("title", self.title.as_str()));
        fields.push(make_field("image_url", self.image_url.as_str()));
        let c = Content { fields };
        proof {
            assert(c@ =~= encode_card_spec(self@));
        }
        c
    }
}

/// Decoding a well-formed card's canonical content block restores the card.
pub proof fn lemma_card_round_trip(c: SDUICardComponentV)
    requires
        c.wf(),
    ensures
        decode_card_spec(encode_card_spec(c)) == Ok::<SDUICardComponentV, DecodeErrorV>(c),
{
    reveal_strlit("title");
    reveal_strlit("image_url");
    let content = encode_card_spec(c);
    assert(card_title_field().len() == 5);
    assert(card_image_url_field().len() == 9);
    assert(card_title_field() != card_image_url_field());
    assert(lookup_field(content, card_title_field()) == Some(c.title));
    assert(content.drop_first() =~= seq![
        ContentFieldV { name: card_image_url_field(), value: c.image_url },
    ]);
    assert(lookup_field(content.drop_first(), card_image_url_field()) == Some(c.image_url));
    assert(lookup_field(content, card_image_url_field()) == Some(c.image_url));
    assert(SDUICardComponentV { title: c.title, image_url: c.image_url } =~= c);
}

} // verus!
