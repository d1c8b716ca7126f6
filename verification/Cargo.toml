[package]
name = "qsc"
version = "0.1.0"
edition = "2021"
publish = false

[dependencies]
anyhow = "=1.0.104"
clap = { version = "=4.6.7", features = ["derive"] }
cranelift-codegen = "=0.130.2"
cranelift-frontend = "=0.130.2"
cranelift-module = "=0.130.2"
pest = "=2.9.4"
serde = { version = "=1.0.229", features = ["derive"] }
target-lexicon = "=0.13.5"
which = "=8.0.6"
