pub mod content;
pub mod entrypoint;
pub mod errors;
pub mod graphql_schema;
pub mod model;
pub mod sdui_card_component;
pub mod sdui_component;
pub mod sdui_description_component;
pub mod sdui_jumbotron_component;
pub mod sdui_scrollview_horizontal_component;
pub mod sdui_section;
pub mod users;
