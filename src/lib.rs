//! Attribute-driven synthesis of accessor methods and structure metadata.
//!
//! Syntax values (identifiers, types, visibilities, paths, generics) are
//! carried as their token text. The functions here decide what to generate
//! and return the generated source as text; a thin macro layer parses that
//! text back into tokens.
pub mod text;
pub mod style;
pub mod error;
pub mod meta;
pub mod debug;
pub mod generics;
pub mod getter;
pub mod setter;
pub mod fields;
pub mod args;
pub mod tag_map;
pub mod info;
pub mod reflect;
