[package]
name = "emergence_client"
version = "0.1.0"
edition = "2021"
publish = false

[dependencies]
serde_json = "1"
textwrap = "0.16"
term_size = "0.3"
actix-web = { version = "4", default-features = false, features = ["macros"] }
reqwest = { version = "0.11", default-features = false }
tokio = { version = "1", features = ["rt-multi-thread", "macros"] }
