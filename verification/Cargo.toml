[package]
name = "user_crud"
version = "0.1.0"
edition = "2021"
publish = false

[dependencies]
uuid = { version = "1", features = ["v4"] }
serde = { version = "1", features = ["derive"] }
sqlx = { version = "0.7", default-features = false, features = ["postgres", "runtime-async-std"] }
async-std = "1"
dotenv = "0.15"
prettytable-rs = "0.10"
