[package]
name = "yas_deploy"
version = "0.1.0"
edition = "2021"
publish = false

[dependencies]
starknet = "0.6.0"
serde_json = "1"
tokio = { version = "1", features = ["macros", "rt-multi-thread", "time"] }
dotenv = "0.15"
eyre = "0.6"
rpassword = "7"
url = "2"
