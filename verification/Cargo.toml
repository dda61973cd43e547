[package]
name = "deploy_with_cqrs"
version = "0.1.0"
edition = "2021"
publish = false

[dependencies]
actix-web = "=4.18.1"
async-trait = "=0.1.92"
cqrs-es = "=0.4.12"
serde = { version = "=1.0.229", features = ["derive"] }
sqlite-es = "=0.4.13"
sqlx = { version = "0.8", features = ["sqlite"] }
tokio = { version = "=1.54.1", features = ["rt-multi-thread", "macros", "time"] }
