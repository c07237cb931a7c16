//! Style properties of a retained document tree: what an element declares,
//! and what it computes to once inheritance is resolved against its parent.

pub mod apply_laws;
pub mod attributes;
pub mod cascade;
pub mod color;
pub mod computed;
pub mod css;
pub mod dasharray;
pub mod declarations;
pub mod error;
pub mod font;
pub mod iri;
pub mod laws;
pub mod length;
pub mod names;
pub mod number;
pub mod paint_server;
pub mod parse_property;
pub mod parsed;
pub mod parsers;
pub mod property;
pub mod property_defs;
pub mod property_id;
pub mod specified;
pub mod text;
pub mod unit_interval;
pub mod written;
