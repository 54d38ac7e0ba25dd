[package]
name = "blot"
version = "0.1.0"
edition = "2021"
publish = false

[dependencies]
serde_yml = "=0.0.12"
serde_json = "=1.0.154"
reqwest = { version = "=0.12.28", default-features = false, features = ["json"] }
tokio = { version = "=1.54.1", features = ["full"] }
serenity = { version = "=0.12.5", features = ["collector"] }
diesel = { version = "2", default-features = false, features = ["postgres_backend"] }
diesel-async = { version = "0.6", features = ["postgres", "bb8"] }
dotenvy = "=0.15.7"
log = "=0.4.34"
