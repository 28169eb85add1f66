//! A dynamic-value command layer: a tagged dynamic value with conversions
//! from and to native scalar types and from free-form text, an ordered
//! argument store for one invocation, an adapter layer that extracts a
//! function's arguments from the store by position, and a registry that
//! maps command names to adapters.

pub mod adapter;
pub mod error;
pub mod parse;
pub mod registry;
pub mod render;
pub mod shell;
pub mod store;
pub mod text;
pub mod value;
