[package]
name = "vllm_report"
version = "0.1.0"
edition = "2021"
publish = false

[dependencies]
anyhow = "*"
clap = { version = "*", features = ["derive"] }
indexmap = "*"
opener = "*"
serde = { version = "*", features = ["derive"] }
serde_json = "*"
tiny_http = "*"
tinytemplate = "*"
tlparse = "*"
