//! Typed access to XIVAPI, a REST API for the characters and free companies
//! of Final Fantasy XIV.
//!
//! The library holds everything about a request that can be computed: the
//! address to ask ([`query`]), what a response amounts to ([`response`]),
//! and the data model with its mapping to and from JSON ([`character`],
//! [`freecompany`], [`pagination`], [`wire`]). Sending the request is left
//! to a client built on top of it.
//!
//! Every function states what it returns over mathematical models: a string
//! is its sequence of characters, a document is a [`json::JsonModel`], and a
//! value of the data model is its view. Decoding is exact about failure: a
//! document either decodes to a value with every field accounted for, or is
//! refused with the path of the first value that does not fit. An optional
//! field that a document leaves out is absent in the value, never replaced
//! by an empty one.

pub mod character;
pub mod error;
pub mod freecompany;
pub mod json;
pub mod pagination;
pub mod query;
pub mod response;
pub mod text;
pub mod wire;
