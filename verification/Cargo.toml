[package]
name = "monoxide_ttf"
version = "0.1.0"
edition = "2021"
publish = false

[dependencies]
bytes = "1"
widestring = "1"
thiserror = "2"
fixed = "1"
rust_decimal = "1"
