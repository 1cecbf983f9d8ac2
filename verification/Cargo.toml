[package]
name = "gosh_distrobox_manager"
version = "0.1.0"
edition = "2021"
publish = false

[dependencies]
futures = "0.3"
i18n-embed = { version = "*", features = ["fluent-system", "desktop-requester"] }
i18n-embed-fl = "*"
rust-embed = "*"
serde = { version = "1", features = ["derive"] }
tracing = "0.1"
tracing-subscriber = { version = "0.3", features = ["env-filter"] }
