[package]
name = "nougat"
version = "0.1.0"
edition = "2021"
publish = false

[dependencies]
syn = { version = "1", features = ["full", "visit-mut", "fold"] }
quote = "1"
proc-macro2 = "1"
macro_rules_attribute = "0.1"
