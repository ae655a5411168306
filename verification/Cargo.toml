[package]
name = "processed_data"
version = "0.1.0"
edition = "2021"
publish = false

[dependencies]
anyhow = "=1.0.104"
async-graphql = { version = "=7.2.1", default-features = false, features = ["dataloader", "graphiql", "tracing"] }
async-graphql-axum = "=7.2.1"
aws-credential-types = "=1.3.1"
aws-sdk-s3 = { version = "=1.155.0", default-features = false, features = ["rt-tokio"] }
axum = "=0.8.9"
clap = { version = "=4.6.7", default-features = false, features = ["std", "derive", "env", "help", "usage", "error-context"] }
derive_more = "=0.99.20"
dotenvy = "=0.15.7"
opentelemetry = "=0.22.0"
opentelemetry-otlp = { version = "=0.15.0", features = ["metrics"] }
opentelemetry-semantic-conventions = "=0.14.0"
opentelemetry_sdk = { version = "=0.22.1", features = ["rt-tokio"] }
sea-orm = { version = "=0.12.15", default-features = false, features = ["macros", "sqlx-mysql", "runtime-tokio-rustls"] }
sea-query = "=0.30.7"
tokio = { version = "=1.54.1", features = ["macros", "rt-multi-thread", "net", "sync"] }
tracing = "=0.1.44"
tracing-opentelemetry = "=0.23.0"
tracing-subscriber = { version = "=0.3.23", default-features = false, features = ["std", "fmt", "registry", "smallvec"] }
url = "=2.5.8"
