[package]
name = "user_create"
version = "0.1.0"
edition = "2021"
publish = false

[dependencies]
async-graphql = "*"
sea-orm = { version = "*", features = ["macros"] }
serde = { version = "*", features = ["derive"] }
