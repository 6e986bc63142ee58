[package]
name = "external_postgres"
version = "0.1.0"
edition = "2021"
publish = false

[dependencies]
axum = "=0.6.20"
clap = { version = "=4.6.7", features = ["derive", "env"] }
color-eyre = "=0.6.5"
dotenvy = "=0.15.7"
eyre = "=0.6.14"
futures = "=0.3.34"
k8s-openapi = { version = "=0.20.0", features = ["v1_28"] }
kube = { version = "=0.87.2", default-features = false, features = ["client", "runtime", "derive", "rustls-tls"] }
parking_lot = "=0.12.5"
reqwest = { version = "=0.11.27", default-features = false, features = ["json", "rustls-tls"] }
schemars = "=0.8.22"
serde = { version = "=1.0.229", features = ["derive"] }
serde_json = "=1.0.154"
shellexpand = "=3.1.2"
sqlx = { version = "=0.7.4", default-features = false, features = ["runtime-tokio", "tls-rustls", "postgres"] }
thiserror = "=1.0.69"
tokio = { version = "=1.54.1", features = ["full"] }
tower-http = { version = "=0.4.4", features = ["trace"] }
tracing = "=0.1.44"
tracing-error = "=0.2.1"
tracing-subscriber = { version = "=0.3.23", features = ["env-filter"] }
url = "=2.5.8"
uuid = { version = "=1.29.0", features = ["v4"] }
