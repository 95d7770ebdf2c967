//! A flight-search tool's core: validation of its argument object, the
//! search URL built from a validated query, and the formatter that turns the
//! search API's response document into human-readable text. Every function
//! carries a contract stating its exact output; the surrounding program only
//! moves bytes in and out.

pub mod json;
pub mod query;
pub mod render;
pub mod text;
pub mod time;
