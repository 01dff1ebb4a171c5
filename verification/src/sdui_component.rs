//! The component union: a closed, tagged sum over all component payload
//! types. The discriminator tag uniquely determines the expected payload
//! shape; an unrecognized tag is a decode failure, never a default value.
//! The dispatch table below is one exhaustive match per operation, so a
//! payload type left out of it is a build error, not a runtime gap.

use vstd::prelude::*;
use crate::content::{Content, ContentFieldV, str_eq};
use crate::errors::{DecodeError, DecodeErrorV};
use crate::sdui_card_component::{
    SDUICardComponent, SDUICardComponentV, card_image_url_field, card_tag, card_title_field,
    decode_card, decode_card_spec, encode_card_spec, lemma_card_round_trip,
};
use crate::sdui_description_component::{
    SDUIDescriptionComponent, SDUIDescriptionComponentV, decode_description,
    decode_description_spec, description_tag, description_text_field, encode_description_spec,
    lemma_description_round_trip,
};
use crate::sdui_jumbotron_component::{
    SDUIJumbotronComponent, SDUIJumbotronComponentV, decode_jumbotron, decode_jumbotron_spec,
    encode_jumbotron_spec, jumbotron_subtitle_field, jumbotron_tag, jumbotron_title_field,
    lemma_jumbotron_round_trip,
};
use crate::sdui_scrollview_horizontal_component::{
    SDUIScrollViewHorizontalComponent, SDUIScrollViewHorizontalComponentV,
    decode_scrollview_horizontal, decode_scrollview_horizontal_spec,
    encode_scrollview_horizontal_spec, lemma_scrollview_horizontal_round_trip,
    scrollview_horizontal_tag, scrollview_title_field,
};

verus! {

/// One UI component: exactly one active payload out of the closed variant
/// set.
#[derive(Clone, Debug, PartialEq, Eq)]
pub enum SDUIComponent {
    SDUICardComponent(SDUICardComponent),
    SDUIDescriptionComponent(SDUIDescriptionComponent),
    SDUIJumbotronComponent(SDUIJumbotronComponent),
    SDUIScrollViewHorizontalComponent(SDUIScrollViewHorizontalComponent),
}

/// Spec-level model of a component.
#[verifier::ext_equal]
pub enum SDUIComponentV {
    SDUICardComponent(SDUICardComponentV),
    SDUIDescriptionComponent(SDUIDescriptionComponentV),
    SDUIJumbotronComponent(SDUIJumbotronComponentV),
    SDUIScrollViewHorizontalComponent(SDUIScrollViewHorizontalComponentV),
}

impl View for SDUIComponent {
    type V = SDUIComponentV;

    open spec fn view(&self) -> SDUIComponentV {
        match self {
            SDUIComponent::SDUICardComponent(p) => SDUIComponentV::SDUICardComponent(p@),
            SDUIComponent::SDUIDescriptionComponent(p) => SDUIComponentV::SDUIDescriptionComponent(
                p@,
            ),
            SDUIComponent::SDUIJumbotronComponent(p) => SDUIComponentV::SDUIJumbotronComponent(p@),
            SDUIComponent::SDUIScrollViewHorizontalComponent(p) => (
            SDUIComponentV::SDUIScrollViewHorizontalComponent(p@)),
        }
    }
}

/// The discriminator tag of a component.
pub open spec fn tag_of(c: SDUIComponentV) -> Seq<char> {
    match c {
        SDUIComponentV::SDUICardComponent(_) => card_tag(),
        SDUIComponentV::SDUIDescriptionComponent(_) => description_tag(),
        SDUIComponentV::SDUIJumbotronComponent(_) => jumbotron_tag(),
        SDUIComponentV::SDUIScrollViewHorizontalComponent(_) => scrollview_horizontal_tag(),
    }
}

impl SDUIComponentV {
    /// A component is well formed when its active payload is.
    pub open spec fn wf(self) -> bool {
        match self {
            SDUIComponentV::SDUICardComponent(p) => p.wf(),
            SDUIComponentV::SDUIDescriptionComponent(p) => p.wf(),
            SDUIComponentV::SDUIJumbotronComponent(p) => p.wf(),
            SDUIComponentV::SDUIScrollViewHorizontalComponent(p) => p.wf(),
        }
    }
}

/// What decoding a tagged content block yields: the tag picks the payload
/// decoder out of the closed table, and a tag absent from the table is an
/// unknown-kind failure.
pub open spec fn decode_spec(tag: Seq<char>, content: Seq<ContentFieldV>) -> Result<
    SDUIComponentV,
    DecodeErrorV,
> {
    if tag == card_tag() {
        match decode_card_spec(content) {
            Ok(p) => Ok(SDUIComponentV::SDUICardComponent(p)),
            Err(e) => Err(e),
        }
    } else if tag == description_tag() {
        match decode_description_spec(content) {
            Ok(p) => Ok(SDUIComponentV::SDUIDescriptionComponent(p)),
            Err(e) => Err(e),
        }
    } else if tag == jumbotron_tag() {
        match decode_jumbotron_spec(content) {
            Ok(p) => Ok(SDUIComponentV::SDUIJumbotronComponent(p)),
            Err(e) => Err(e),
        }
    } else if tag == scrollview_horizontal_tag() {
        match decode_scrollview_horizontal_spec(content) {
            Ok(p) => Ok(SDUIComponentV::SDUIScrollViewHorizontalComponent(p)),
            Err(e) => Err(e),
        }
    } else {
        Err(DecodeErrorV::UnknownComponentKind { tag })
    }
}

/// The canonical content block of a component.
pub open spec fn encode_content_spec(c: SDUIComponentV) -> Seq<ContentFieldV> {
    match c {
        SDUIComponentV::SDUICardComponent(p) => encode_card_spec(p),
        SDUIComponentV::SDUIDescriptionComponent(p) => encode_description_spec(p),
        SDUIComponentV::SDUIJumbotronComponent(p) => encode_jumbotron_spec(p),
        SDUIComponentV::SDUIScrollViewHorizontalComponent(p) => (
        encode_scrollview_horizontal_spec(p)),
    }
}

/// Decodes one component from its discriminator tag and content block.
pub fn decode(tag: &str, content: &Content) -> (r: Result<SDUIComponent, DecodeError>)
    ensures
        decode_spec(tag@, content@) matches Ok(v) ==> (r matches Ok(c) && c@ == v),
        decode_spec(tag@, content@) matches Err(e) ==> (r matches Err(d) && d@ == e),
{
    if str_eq(tag, "SDUICardComponent") {
        match decode_card(content) {
            Ok(p) => Ok(SDUIComponent::SDUICardComponent(p)),
            Err(e) => Err(e),
        }
    } else if str_eq(tag, "SDUIDescriptionComponent") {
        match decode_description(content) {
            Ok(p) => Ok(SDUIComponent::SDUIDescriptionComponent(p)),
            Err(e) => Err(e),
        }
    } else if str_eq(tag, "SDUIJumbotronComponent") {
        match decode_jumbotron(content) {
            Ok(p) => Ok(SDUIComponent::SDUIJumbotronComponent(p)),
            Err(e) => Err(e),
        }
    } else if str_eq(tag, "SDUIScrollViewHorizontalComponent") {
        match decode_scrollview_horizontal(content) {
            Ok(p) => Ok(SDUIComponent::SDUIScrollViewHorizontalComponent(p)),
            Err(e) => Err(e),
        }
    } else {
        Err(DecodeError::UnknownComponentKind { tag: String::from_str(tag) })
    }
}

impl SDUIComponent {
    /// The discriminator tag of this component.
    pub fn tag(&self) -> (r: String)
        ensures
            r@ == tag_of(self@),
    {
        match self {
            SDUIComponent::SDUICardComponent(_) => String::from_str("SDUICardComponent"),
            SDUIComponent::SDUIDescriptionComponent(_) => String::from_str(
                "SDUIDescriptionComponent",
            ),
            SDUIComponent::SDUIJumbotronComponent(_) => String::from_str("SDUIJumbotronComponent"),
            SDUIComponent::SDUIScrollViewHorizontalComponent(_) => String::from_str(
                "SDUIScrollViewHorizontalComponent",
            ),
        }
    }

    /// Emits the discriminator tag and the canonical content block.
    pub fn encode(&self) -> (r: (String, Content))
        ensures
            r.0@ == tag_of(self@),
            r.1@ == encode_content_spec(self@),
    {
        let content = match self {
            SDUIComponent::SDUICardComponent(p) => p.encode_content(),
            SDUIComponent::SDUIDescriptionComponent(p) => p.encode_content(),
            SDUIComponent::SDUIJumbotronComponent(p) => p.encode_content(),
            SDUIComponent::SDUIScrollViewHorizontalComponent(p) => p.encode_content(),
        };
        (self.tag(), content)
    }
}

/// The four discriminator tags are pairwise distinct.
proof fn lemma_tags_distinct()
    ensures
        card_tag() != description_tag(),
        card_tag() != jumbotron_tag(),
        card_tag() != scrollview_horizontal_tag(),
        description_tag() != jumbotron_tag(),
        description_tag() != scrollview_horizontal_tag(),
        jumbotron_tag() != scrollview_horizontal_tag(),
{
    reveal_strlit("SDUICardComponent");
    reveal_strlit("SDUIDescriptionComponent");
    reveal_strlit("SDUIJumbotronComponent");
    reveal_strlit("SDUIScrollViewHorizontalComponent");
    assert(card_tag().len() == 17);
    assert(description_tag().len() == 24);
    assert(jumbotron_tag().len() == 22);
    assert(scrollview_horizontal_tag().len() == 33);
}

/// Round trip: decoding a well-formed component's own tag and canonical
/// content block restores the component.
pub proof fn lemma_component_round_trip(c: SDUIComponentV)
    requires
        c.wf(),
    ensures
        decode_spec(tag_of(c), encode_content_spec(c)) == Ok::<SDUIComponentV, DecodeErrorV>(c),
{
    lemma_tags_distinct();
    match c {
        SDUIComponentV::SDUICardComponent(p) => lemma_card_round_trip(p),
        SDUIComponentV::SDUIDescriptionComponent(p) => lemma_description_round_trip(p),
        SDUIComponentV::SDUIJumbotronComponent(p) => lemma_jumbotron_round_trip(p),
        SDUIComponentV::SDUIScrollViewHorizontalComponent(p) => (
        lemma_scrollview_horizontal_round_trip(p)),
    }
}

/// Every component a decode can yield is well formed.
pub proof fn lemma_decoded_component_wf(tag: Seq<char>, content: Seq<ContentFieldV>)
    ensures
        decode_spec(tag, content) matches Ok(c) ==> c.wf(),
{
}

/// One named object shape of the exposed schema: a variant name and that
/// variant's own field names, nothing shared across variants.
#[derive(Clone, Debug, PartialEq, Eq)]
pub struct VariantShape {
    pub name: String,
    pub field_names: Vec<String>,
}

/// The schema description of the component union: a sum of named object
/// shapes, one per variant.
#[derive(Clone, Debug, PartialEq, Eq)]
pub struct SchemaShape {
    pub variants: Vec<VariantShape>,
}

/// The variant names the schema exposes, in table order.
pub open spec fn schema_variant_names() -> Seq<Seq<char>> {
    seq![card_tag(), description_tag(), jumbotron_tag(), scrollview_horizontal_tag()]
}

/// Produces the schema description of the union: one named shape per
/// compiled-in variant, carrying exactly that variant's field names.
pub fn describe_schema() -> (r: SchemaShape)
    ensures
        r.variants@.map_values(|v: VariantShape| v.name@) == schema_variant_names(),
        r.variants@[0].field_names@.map_values(|f: String| f@) == seq![
            card_title_field(),
            card_image_url_field(),
        ],
        r.variants@[1].field_names@.map_values(|f: String| f@) == seq![description_text_field()],
        r.variants@[2].field_names@.map_values(|f: String| f@) == seq![
            jumbotron_title_field(),
            jumbotron_subtitle_field(),
        ],
        r.variants@[3].field_names@.map_values(|f: String| f@) == seq![scrollview_title_field()],
{
    let mut card_fields: Vec<String> = Vec::new();
    card_fields.push(String::from_str("title"));
    card_fields.push(String::from_str("image_url"));
    let mut description_fields: Vec<String> = Vec::new();
    description_fields.push(String::from_str("text"));
    let mut jumbotron_fields: Vec<String> = Vec::new();
    jumbotron_fields.push(String::from_str("title"));
    jumbotron_fields.push(String::from_str("subtitle"));
    let mut scrollview_fields: Vec<String> = Vec::new();
    scrollview_fields.push(String::from_str("title"));
    let mut variants: Vec<VariantShape> = Vec::new();
    variants.push(
        VariantShape { name: String::from_str("SDUICardComponent"), field_names: card_fields },
    );
    variants.push(
        VariantShape {
            name: String::from_str("SDUIDescriptionComponent"),
            field_names: description_fields,
        },
    );
    variants.push(
        VariantShape {
            name: String::from_str("SDUIJumbotronComponent"),
            field_names: jumbotron_fields,
        },
    );
    variants.push(
        VariantShape {
            name: String::from_str("SDUIScrollViewHorizontalComponent"),
            field_names: scrollview_fields,
        },
    );
    let r = SchemaShape { variants };
    proof {
        assert(r.variants@.map_values(|v: VariantShape| v.name@) =~= schema_variant_names());
        assert(r.variants@[0].field_names@.map_values(|f: String| f@) =~= seq![
            card_title_field(),
            card_image_url_field(),
        ]);
        assert(r.variants@[1].field_names@.map_values(|f: String| f@) =~= seq![
            description_text_field(),
        ]);
        assert(r.variants@[2].field_names@.map_values(|f: String| f@) =~= seq![
            jumbotron_title_field(),
            jumbotron_subtitle_field(),
        ]);
        assert(r.variants@[3].field_names@.map_values(|f: String| f@) =~= seq![
            scrollview_title_field(),
        ]);
    }
    r
}

/// Schema shape stability, one direction: every constructible component's
/// tag is a variant name the schema exposes. The match below is exhaustive
/// over the union, so a variant missing from the table fails this build.
pub proof fn lemma_schema_covers_components(c: SDUIComponentV)
    ensures
        schema_variant_names().contains(tag_of(c)),
{
    match c {
        SDUIComponentV::SDUICardComponent(_) => {
            assert(schema_variant_names()[0] == tag_of(c));
        },
        SDUIComponentV::SDUIDescriptionComponent(_) => {
            assert(schema_variant_names()[1] == tag_of(c));
        },
        SDUIComponentV::SDUIJumbotronComponent(_) => {
            assert(schema_variant_names()[2] == tag_of(c));
        },
        SDUIComponentV::SDUIScrollViewHorizontalComponent(_) => {
            assert(schema_variant_names()[3] == tag_of(c));
        },
    }
}

/// Schema shape stability, the other direction: every variant name the
/// schema exposes is the tag of some constructible component.
pub proof fn lemma_schema_names_constructible(i: int)
    requires
        0 <= i < schema_variant_names().len(),
    ensures
        exists|c: SDUIComponentV| tag_of(c) == schema_variant_names()[i],
{
    if i == 0 {
        let w = SDUIComponentV::SDUICardComponent(
            SDUICardComponentV { title: Seq::empty(), image_url: Seq::empty() },
        );
        assert(tag_of(w) == schema_variant_names()[i]);
    } else if i == 1 {
        let w = SDUIComponentV::SDUIDescriptionComponent(
            SDUIDescriptionComponentV { text: Seq::empty() },
        );
        assert(tag_of(w) == schema_variant_names()[i]);
    } else if i == 2 {
        let w = SDUIComponentV::SDUIJumbotronComponent(
            SDUIJumbotronComponentV { title: Seq::empty(), subtitle: Seq::empty() },
        );
        assert(tag_of(w) == schema_variant_names()[i]);
    } else {
        let w = SDUIComponentV::SDUIScrollViewHorizontalComponent(
            SDUIScrollViewHorizontalComponentV { title: Seq::empty() },
        );
        assert(tag_of(w) == schema_variant_names()[i]);
    }
}

/// Unknown tag: a tag outside the closed variant table always fails, for
/// every content block, with that tag reported.
pub proof fn lemma_unknown_tag(tag: Seq<char>, content: Seq<ContentFieldV>)
    requires
        tag != card_tag(),
        tag != description_tag(),
        tag != jumbotron_tag(),
        tag != scrollview_horizontal_tag(),
    ensures
        decode_spec(tag, content) == Err::<SDUIComponentV, DecodeErrorV>(
            DecodeErrorV::UnknownComponentKind { tag },
        ),
{
}

/// The tag "__nonexistent__" names no variant, so decoding under it fails
/// with an unknown-kind failure whatever the content block holds.
pub proof fn lemma_nonexistent_tag_always_fails(content: Seq<ContentFieldV>)
    ensures
        decode_spec("__nonexistent__"@, content) == Err::<SDUIComponentV, DecodeErrorV>(
            DecodeErrorV::UnknownComponentKind { tag: "__nonexistent__"@ },
        ),
{
    reveal_strlit("__nonexistent__");
    reveal_strlit("SDUICardComponent");
    reveal_strlit("SDUIDescriptionComponent");
    reveal_strlit("SDUIJumbotronComponent");
    reveal_strlit("SDUIScrollViewHorizontalComponent");
    assert("__nonexistent__"@.len() == 15);
    assert(card_tag().len() == 17);
    assert(description_tag().len() == 24);
    assert(jumbotron_tag().len() == 22);
    assert(scrollview_horizontal_tag().len() == 33);
    lemma_unknown_tag("__nonexistent__"@, content);
}

} // verus!
