[package]
name = "qa_service"
version = "0.1.0"
edition = "2021"
publish = false

[dependencies]
axum = "0.5"
dotenv = "0.15"
reqwasm = "0.5"
serde = { version = "1", features = ["derive"] }
serde_json = "1"
sqlx = { version = "0.7", default-features = false, features = ["runtime-tokio", "postgres"] }
tokio = { version = "1", features = ["macros", "rt-multi-thread"] }
wasm-bindgen-futures = "0.4"
web-sys = { version = "0.3", features = ["console"] }
yew = "0.19"
