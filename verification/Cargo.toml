[package]
name = "ber_pretty"
version = "0.1.0"
edition = "2021"
publish = false

[dependencies]
asn1-rs = "*"
rusticata-macros = "*"
