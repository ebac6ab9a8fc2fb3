//! A content-filtering engine: a deny list of words is compiled once into an
//! immutable matcher, and that matcher decides, case-insensitively, whether
//! any forbidden word occurs as a substring in a flat string, anywhere in a
//! tree-shaped dynamic value, or inside a MessagePack buffer walked in place.
//!
//! Three interchangeable backends compile the word list; every scanning
//! operation is written once against the [`matcher::Matcher`] contract, and
//! all of them answer through one spec function, [`text::deny_match`].

pub mod build_error;
pub mod laws;
pub mod matcher;
pub mod msgpack;
pub mod scan_any;
pub mod text;
pub mod value;

pub mod deny_list;
pub mod deny_list_config;
pub mod deny_list_daac;
pub mod deny_list_plugin;
pub mod deny_list_rs;
