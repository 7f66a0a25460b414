[package]
name = "web_scaffolding"
version = "0.1.0"
edition = "2021"
publish = false

[dependencies]
axum = "0.8"
axum-client-ip = "*"
axum-htmx = { version = "*", features = ["auto-vary"] }
axum-server = { version = "*", features = ["tls-rustls"] }
bon = "3"
clap = { version = "4", features = ["derive"] }
derive-where = "1"
eyre = "0.6"
rust-embed = { version = "8", features = ["mime-guess"] }
scc = "*"
serde = { version = "1", features = ["derive"] }
serde_json = "1"
shrinkwraprs = "*"
simple-eyre = "0.3"
stable_deref_trait = "1"
time = "0.3"
toasty = "*"
tokio = { version = "1", features = ["full"] }
tower = { version = "0.5", features = ["util"] }
tower-cookies = { version = "*", features = ["signed"] }
tower-http = { version = "0.6", features = ["cors", "catch-panic", "compression-full"] }
tracing = "0.1"
tracing-subscriber = "0.3"
uuid = { version = "1", features = ["v7"] }
yoke = { version = "*", features = ["derive"] }
