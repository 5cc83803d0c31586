[package]
name = "lenso-organization"
version = "0.1.0"
edition = "2021"
publish = false

[dependencies]
futures = "*"
getrandom = "*"
lenso = "*"
lenso-capability-agent-tool-provider = "*"
lenso-capability-secrets = "*"
lenso-kernel = "*"
lenso-native-adapter = "*"
lenso-postgres-kit = "*"
serde = { version = "*", features = ["derive"] }
serde_json = "*"
sqlx = { version = "*", features = ["postgres", "runtime-tokio"] }
thiserror = "*"
zeroize = "*"
