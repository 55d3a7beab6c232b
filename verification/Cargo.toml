[package]
name = "fetchmixes"
version = "0.1.0"
edition = "2021"
publish = false

[dependencies]
chrono = { version = "0.4", features = ["serde"] }
env_logger = "0.11"
exitfailure = "0.5"
failure = "0.1"
log = "0.4"
reqwest = { version = "0.12", features = ["blocking", "cookies", "json"] }
rusqlite = { version = "0.32", features = ["chrono"] }
serde = { version = "1", features = ["derive"] }
serde_json = "1"
structopt = "0.3"
url = "2"
