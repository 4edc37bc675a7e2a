//! Generation of error-type boilerplate: for a tagged union (or a struct without
//! members) described by its cases, their shapes, `error` attributes and doc comments,
//! the display, description and cause bodies and the conversion functions.
pub mod annotation;
pub mod artifact;
pub mod generate;
pub mod input;
pub mod laws;
pub mod message;
pub mod text;
