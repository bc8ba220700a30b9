//! Compiles a small declarative schema of named status states into a
//! formatter that renders each state as a column-aligned, optionally
//! ANSI-styled terminal label.

pub mod format;
pub mod laws;
pub mod model;
pub mod render;
pub mod schema;
pub mod style;
pub mod text;
pub mod visible;

pub use format::StatusFormat;
pub use model::VariantDef;
pub use render::render;
pub use schema::CompileError;
pub use schema::RawAttr;
pub use schema::RawDecl;
pub use schema::RawValue;
pub use schema::RawVariant;
pub use style::Color;
pub use style::Effect;
pub use style::Style;
pub use text::visible_width;
