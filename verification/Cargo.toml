[package]
name = "deny_filter"
version = "0.1.0"
edition = "2021"
publish = false

[dependencies]
aho-corasick = "1"
daachorse = "1"
regex = "1"

[dev-dependencies]
rmpv = "1"
