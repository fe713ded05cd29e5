//! What the generators share: generic argument lists, attributes, and the
//! emission of provider impls.

pub mod build_di_provider;
pub mod common;
