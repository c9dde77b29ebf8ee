[package]
name = "post_machine"
version = "0.1.0"
edition = "2021"
publish = false

[dependencies]
ansi_term = "=0.12.1"
tabled = { version = "=0.22.0", default-features = false, features = ["std"] }
