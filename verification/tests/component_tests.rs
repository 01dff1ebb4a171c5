use sdui::content::{Content, ContentField};
use sdui::errors::DecodeError;
use sdui::sdui_card_component::SDUICardComponent;
use sdui::sdui_component::{decode, describe_schema, SDUIComponent};
use sdui::sdui_description_component::SDUIDescriptionComponent;
use sdui::sdui_jumbotron_component::SDUIJumbotronComponent;
use sdui::sdui_scrollview_horizontal_component::SDUIScrollViewHorizontalComponent;

fn content_of(fields: &[(&str, &str)]) -> Content {
    Content {
        fields: fields
            .iter()
            .map(|(name, value)| ContentField {
                name: name.to_string(),
                value: value.to_string(),
            })
            .collect(),
    }
}

fn assert_round_trips(component: SDUIComponent) {
    let (tag, content) = component.encode();
    let decoded = decode(tag.as_str(), &content).expect("canonical encoding must decode");
    assert_eq!(decoded, component);
}

#[test]
fn round_trip_card() {
    assert_round_trips(SDUIComponent::SDUICardComponent(SDUICardComponent {
        title: "Weekly picks".to_string(),
        image_url: "https://cdn.example/covers/17.jpg".to_string(),
    }));
}

#[test]
fn round_trip_description() {
    assert_round_trips(SDUIComponent::SDUIDescriptionComponent(
        SDUIDescriptionComponent {
            text: "A short body of text.".to_string(),
        },
    ));
}

#[test]
fn round_trip_description_empty_text() {
    assert_round_trips(SDUIComponent::SDUIDescriptionComponent(
        SDUIDescriptionComponent {
            text: String::new(),
        },
    ));
}

#[test]
fn round_trip_jumbotron() {
    assert_round_trips(SDUIComponent::SDUIJumbotronComponent(SDUIJumbotronComponent {
        title: "Fresh today".to_string(),
        subtitle: "Hand-picked for you".to_string(),
    }));
}

#[test]
fn round_trip_scrollview_horizontal() {
    assert_round_trips(SDUIComponent::SDUIScrollViewHorizontalComponent(
        SDUIScrollViewHorizontalComponent {
            title: "Keep browsing".to_string(),
        },
    ));
}

#[test]
fn unknown_tag_always_fails() {
    let blocks = [
        content_of(&[]),
        content_of(&[("title", "T"), ("image_url", "u")]),
        content_of(&[("anything", "at all")]),
    ];
    for content in blocks.iter() {
        match decode("__nonexistent__", content) {
            Err(DecodeError::UnknownComponentKind { tag }) => {
                assert_eq!(tag, "__nonexistent__");
            }
            other => panic!("expected an unknown-kind failure, got {:?}", other),
        }
    }
}

#[test]
fn card_missing_title_fails() {
    let r = decode("SDUICardComponent", &content_of(&[("image_url", "u")]));
    assert_eq!(
        r,
        Err(DecodeError::MissingField {
            kind_tag: "SDUICardComponent".to_string(),
            field: "title".to_string(),
        })
    );
}

#[test]
fn card_missing_image_url_fails() {
    let r = decode("SDUICardComponent", &content_of(&[("title", "T")]));
    assert_eq!(
        r,
        Err(DecodeError::MissingField {
            kind_tag: "SDUICardComponent".to_string(),
            field: "image_url".to_string(),
        })
    );
}

#[test]
fn card_empty_title_fails() {
    let r = decode(
        "SDUICardComponent",
        &content_of(&[("title", ""), ("image_url", "u")]),
    );
    assert_eq!(
        r,
        Err(DecodeError::InvalidField {
            kind_tag: "SDUICardComponent".to_string(),
            field: "title".to_string(),
        })
    );
}

#[test]
fn jumbotron_missing_subtitle_fails() {
    let r = decode("SDUIJumbotronComponent", &content_of(&[("title", "T")]));
    assert_eq!(
        r,
        Err(DecodeError::MissingField {
            kind_tag: "SDUIJumbotronComponent".to_string(),
            field: "subtitle".to_string(),
        })
    );
}

#[test]
fn decode_takes_first_of_duplicate_fields() {
    let content = content_of(&[("text", "first"), ("text", "second")]);
    let decoded = decode("SDUIDescriptionComponent", &content).expect("text is present");
    assert_eq!(
        decoded,
        SDUIComponent::SDUIDescriptionComponent(SDUIDescriptionComponent {
            text: "first".to_string(),
        })
    );
}

#[test]
fn decode_ignores_extra_fields() {
    let content = content_of(&[("padding", "8"), ("text", "body")]);
    let decoded = decode("SDUIDescriptionComponent", &content).expect("text is present");
    assert_eq!(
        decoded,
        SDUIComponent::SDUIDescriptionComponent(SDUIDescriptionComponent {
            text: "body".to_string(),
        })
    );
}

#[test]
fn schema_exposes_exactly_the_compiled_in_kinds() {
    let schema = describe_schema();
    let names: Vec<&str> = schema.variants.iter().map(|v| v.name.as_str()).collect();
    assert_eq!(
        names,
        vec![
            "SDUICardComponent",
            "SDUIDescriptionComponent",
            "SDUIJumbotronComponent",
            "SDUIScrollViewHorizontalComponent",
        ]
    );
    let fields: Vec<Vec<&str>> = schema
        .variants
        .iter()
        .map(|v| v.field_names.iter().map(|f| f.as_str()).collect())
        .collect();
    assert_eq!(
        fields,
        vec![
            vec!["title", "image_url"],
            vec!["text"],
            vec!["title", "subtitle"],
            vec!["title"],
        ]
    );
}

#[test]
fn encode_emits_the_variant_tag() {
    let c = SDUIComponent::SDUIJumbotronComponent(SDUIJumbotronComponent {
        title: "T".to_string(),
        subtitle: "S".to_string(),
    });
    let (tag, content) = c.encode();
    assert_eq!(tag, "SDUIJumbotronComponent");
    let names: Vec<&str> = content.fields.iter().map(|f| f.name.as_str()).collect();
    assert_eq!(names, vec!["title", "subtitle"]);
}
