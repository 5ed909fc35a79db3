[package]
name = "spin_variables"
version = "0.1.0"
edition = "2021"
publish = false

[dependencies]
anyhow = "1"
async-trait = "0.1"
clap = { version = "4", features = ["derive"] }
comfy-table = "7"
tempfile = "3"
tokio = { version = "1", features = ["macros", "rt-multi-thread"] }
