[package]
name = "club_membership"
version = "0.1.0"
edition = "2021"
publish = false

[dependencies]
validator = "0.16"
uuid = { version = "1", features = ["v4"] }
anyhow = "1"
async-trait = "0.1"
tokio = { version = "1", features = ["macros", "rt-multi-thread", "sync"] }
sqlx = { version = "0.8", default-features = false, features = ["postgres", "runtime-tokio", "uuid"] }
actix-web = { version = "4", default-features = false, features = ["macros"] }
serde = { version = "1", features = ["derive"] }
serde_json = "1"
clap = { version = "3.2", features = ["derive"] }
once_cell = "1"
