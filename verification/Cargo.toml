[package]
name = "service_host"
version = "0.1.0"
edition = "2021"
publish = false

[dependencies]
appinsights = "=0.2.3"
axum = "=0.5.17"
mediator = { version = "=0.2.2", features = ["async"] }
serde = "=1.0.229"
tokio = { version = "=1.54.1", features = ["macros", "net", "rt", "rt-multi-thread", "sync", "time"] }
tower-http = { version = "=0.3.5", features = ["compression-br", "compression-deflate", "compression-gzip", "cors", "trace"] }
tracing-subscriber = { version = "=0.3.23", features = ["env-filter"] }
utoipa = "=2.4.2"
utoipa-swagger-ui = { version = "=2.0.2", features = ["debug-embed"] }

[dev-dependencies]
hyper = "=0.14.32"
serde_json = "=1.0.154"
tower = { version = "=0.4.13", features = ["util"] }
