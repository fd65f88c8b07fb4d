[package]
name = "srcerr"
version = "0.4.0"
edition = "2021"
publish = false

[dependencies]
ansi_term = "0.12"
codespan = "0.11"
codespan-reporting = "0.11"
