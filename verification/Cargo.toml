[package]
name = "schema_codegen"
version = "0.1.0"
edition = "2021"
publish = false

[dependencies]
quote = "1"
proc-macro2 = "1"
