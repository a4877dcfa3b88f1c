[package]
name = "commit_msg_hook"
version = "0.1.0"
edition = "2021"
publish = false

[dependencies]
clap = { version = "4", features = ["derive"] }
colored = "2"
serde = { version = "1", features = ["derive"] }
serde_yaml = "0.9"
tracing = "0.1"
tracing-subscriber = { version = "0.3", features = ["env-filter", "local-time"] }
winapi = { version = "0.3", features = ["consoleapi", "processenv", "winbase", "wincon"] }

[dev-dependencies]
regex = "1"
