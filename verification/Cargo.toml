[package]
name = "uu_diff"
version = "0.1.0"
edition = "2021"
publish = false

[dependencies]
clap = "=4.6.7"
fluent = "=0.17.0"
same-file = "=1.0.6"
uucore = "=0.12.0"
