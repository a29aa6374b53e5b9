[package]
name = "auth_core"
version = "0.1.0"
edition = "2021"
publish = false

[dependencies]
cookie = { version = "0.16", features = ["signed"] }
bcrypt = "0.15"
uuid = { version = "1", features = ["v4"] }
thotp = "*"
data-encoding = "2"
actix-web = "4"
async-trait = "0.1"
serde = { version = "1", features = ["derive"] }
serde_json = "1"
thiserror = "1"
validator = "0.16"
dotenv = "0.15"
reqwest = { version = "0.11", default-features = false }
clap = { version = "4", features = ["derive"] }
colored = "2"
syn = { version = "1", features = ["full"] }
