[package]
name = "hello_server"
version = "0.1.0"
edition = "2021"
publish = false

[dependencies]
actix-web = "4"
axum = "0.8"
tokio = { version = "1", features = ["macros", "rt-multi-thread", "net"] }
