[package]
name = "starboard_bot"
version = "0.1.0"
edition = "2021"
publish = false

[dependencies]
poise = "=0.6.2"
serde = { version = "=1.0.229", features = ["derive"] }
sqlx = { version = "=0.8.6", default-features = false, features = ["postgres", "runtime-tokio", "derive"] }
tokio = { version = "=1.54.1", features = ["macros", "rt-multi-thread", "process"] }
toml = "=0.8.23"
