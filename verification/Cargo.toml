[package]
name = "conditions"
version = "0.3.0"
edition = "2021"
publish = false

[dependencies]
clap = { version = "4", features = ["derive"] }
confy = "0.5"
env_logger = "0.10"
eyre = "0.6"
log = "0.4"
serde = { version = "1", features = ["derive"] }
serde_json = "1"
sqlx = { version = "0.7", default-features = false, features = ["runtime-tokio", "sqlite"] }
thiserror = "1"
tokio = { version = "1", features = ["macros", "rt"] }
ureq = { version = "2", features = ["json"] }
