[package]
name = "smoller_str"
version = "0.1.0"
edition = "2021"
publish = false

[dependencies]
convert_case = "*"
smol_str = "*"
syn = "1"
proc-macro2 = "1"
