[package]
name = "xml_schema_derive"
version = "0.1.0"
edition = "2021"
publish = false

[dependencies]
heck = "=0.3.3"
log = "=0.4.34"
proc-macro2 = "=1.0.107"
quote = "=1.0.47"
syn = "=1.0.109"
xml-rs = "0.8"
yaserde = "=0.8.0"
yaserde_derive = "=0.8.0"
