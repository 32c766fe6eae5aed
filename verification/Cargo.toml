[package]
name = "user_crud"
version = "0.1.0"
edition = "2021"
publish = false

[dependencies]
lazy_static = "1"
rustract = "*"
serde = { version = "1", features = ["derive"] }
serde_json = "1"
tokio = { version = "1", features = ["macros", "rt-multi-thread"] }
warp = "0.3"
