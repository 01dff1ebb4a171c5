//! The horizontal scroll view component: a horizontally scrolling strip of
//! content named by a heading.

use vstd::prelude::*;
use crate::content::{Content, ContentField, ContentFieldV, find_field, lookup_field, make_field};
use crate::errors::{DecodeError, DecodeErrorV};

verus! {

/// The discriminator tag of the horizontal scroll view component.
pub open spec fn scrollview_horizontal_tag() -> Seq<char> {
    "SDUIScrollViewHorizontalComponent"@
}

/// The scroll view's heading field name.
pub open spec fn scrollview_title_field() -> Seq<char> {
    "title"@
}

/// A horizontal scroll view: a heading over a scrolling strip.
#[derive(Clone, Debug, PartialEq, Eq)]
pub struct SDUIScrollViewHorizontalComponent {
    pub title: String,
}

/// Spec-level model of a horizontal scroll view.
#[verifier::ext_equal]
pub struct SDUIScrollViewHorizontalComponentV {
    pub title: Seq<char>,
}

impl View for SDUIScrollViewHorizontalComponent {
    type V = SDUIScrollViewHorizontalComponentV;

    open spec fn view(&self) -> SDUIScrollViewHorizontalComponentV {
        SDUIScrollViewHorizontalComponentV { title: self.title@ }
    }
}

impl SDUIScrollViewHorizontalComponentV {
    /// Any heading makes a well-formed scroll view.
    pub open spec fn wf(self) -> bool {
        true
    }
}

/// What decoding a scroll view's content block yields: the heading field
/// must be present.
pub open spec fn decode_scrollview_horizontal_spec(content: Seq<ContentFieldV>) -> Result<
    SDUIScrollViewHorizontalComponentV,
    DecodeErrorV,
> {
    match lookup_field(content, scrollview_title_field()) {
        None => Err(
            DecodeErrorV::MissingField {
                kind_tag: scrollview_horizontal_tag(),
                field: scrollview_title_field(),
            },
        ),
        Some(title) => Ok(SDUIScrollViewHorizontalComponentV { title }),
    }
}

/// The canonical content block of a horizontal scroll view.
pub open spec fn encode_scrollview_horizontal_spec(
    c: SDUIScrollViewHorizontalComponentV,
) -> Seq<ContentFieldV> {
    seq![ContentFieldV { name: scrollview_title_field(), value: c.title }]
}

/// Decodes a horizontal scroll view from its content block.
pub fn decode_scrollview_horizontal(content: &Content) -> (r: Result<
    SDUIScrollViewHorizontalComponent,
    DecodeError,
>)
    ensures
        decode_scrollview_horizontal_spec(content@) matches Ok(v) ==> (r matches Ok(c) && c@ == v),
        decode_scrollview_horizontal_spec(content@) matches Err(e) ==> (r matches Err(d) && d@
            == e),
{
    let title = match find_field(content, &String::from_str("title")) {
        Some(v) => v,
        None => {
            return Err(
                DecodeError::MissingField {
                    kind_tag: String::from_str("SDUIScrollViewHorizontalComponent"),
                    field: String::from_str("title"),
                },
            );
        },
    };
    Ok(SDUIScrollViewHorizontalComponent { title })
}

impl SDUIScrollViewHorizontalComponent {
    /// Emits the scroll view's canonical content block.
    pub fn encode_content(&self) -> (r: Content)
        ensures
            r@ == encode_scrollview_horizontal_spec(self@),
    {
        let mut fields: Vec<ContentField> = Vec::new();
        fields.push(make_field("title", self.title.as_str()));
        let c = Content { fields };
        proof {
            assert(c@ =~= encode_scrollview_horizontal_spec(self@));
        }
        c
    }
}

/// Decoding a scroll view's canonical content block restores the scroll
/// view.
pub proof fn lemma_scrollview_horizontal_round_trip(c: SDUIScrollViewHorizontalComponentV)
    ensures
        decode_scrollview_horizontal_spec(encode_scrollview_horizontal_spec(c)) == Ok::<
            SDUIScrollViewHorizontalComponentV,
            DecodeErrorV,
        >(c),
{
    let content = encode_scrollview_horizontal_spec(c);
    assert(lookup_field(content, scrollview_title_field()) == Some(c.title));
    assert(SDUIScrollViewHorizontalComponentV { title: c.title } =~= c);
}

} // verus!
