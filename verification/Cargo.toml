[package]
name = "user_crud"
version = "0.1.0"
edition = "2021"
publish = false

[dependencies]
sqlx = { version = "0.8", default-features = false, features = ["postgres", "runtime-tokio"] }
tokio = { version = "1", features = ["rt-multi-thread", "macros", "time"] }
dotenv = "0.15"
diesel = { version = "2", default-features = false, features = ["postgres"] }
