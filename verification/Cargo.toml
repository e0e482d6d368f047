[package]
name = "idl_parser"
version = "0.1.0"
edition = "2021"
publish = false

[dependencies]
capitalize = "*"
heck = "*"
pest = "*"
pest_derive = "*"
prettyplease = "*"
proc-macro2 = "*"
quote = "*"
syn = { version = "*", features = ["full"] }
