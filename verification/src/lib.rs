//! Builds Windows resource scripts from an in-memory description of the
//! resources of a program, each optionally specialised per display language.
//!
//! A [`Build`] holds the resources for each language. Resources are made by
//! the builders of the modules [`string_table`], [`accelerators`], [`menu`]
//! and [`dialog`], or from files, and are declared for every language or
//! for one. [`Build::generate_script`] gives the script as bytes.
//!
//! The document model and the serializer are verified: every rendering
//! function states, over a specification function, the exact bytes that it
//! appends.

pub mod accelerators;
pub mod bytes;
pub mod codegen;
pub mod dialog;
pub mod digits;
pub mod document;
pub mod escape;
pub mod font;
pub mod id;
pub mod lang;
pub mod menu;
pub mod multilang;
pub mod predefined_id;
pub mod rc_inline;
pub mod rect;
pub mod resource;
pub mod string_table;
pub mod user_defined;
pub mod version_info;

pub use crate::document::Build;
pub use crate::font::{FontCharset, FontItalic, FontSize, FontWeight};
pub use crate::id::{Id, IdOrName};
pub use crate::lang::Lang;
pub use crate::multilang::{ExtraInfo, MultiLangText};
pub use crate::rect::Rect;
pub use crate::resource::Resource;
