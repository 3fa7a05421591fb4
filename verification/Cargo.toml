[package]
name = "stackable_monitoring"
version = "0.1.0"
edition = "2021"
publish = false

[dependencies]
semver = "1"
handlebars = "4"
serde = { version = "1", features = ["derive"] }
serde_json = "1"
serde_yaml = "0.8"
thiserror = "1"
tracing = "0.1"
tokio = { version = "1", features = ["macros", "rt-multi-thread"] }
clap = "2"
async-trait = "0.1"
