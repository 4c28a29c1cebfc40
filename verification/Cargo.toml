[package]
name = "drink_o_matic"
version = "0.1.0"
edition = "2021"
publish = false

[dependencies]
dirs = "*"
dotenv = "0.15"
env_logger = "*"
gpio-cdev = "*"
handlebars = "*"
hard-xml = "*"
log = "0.4"
rocket = { version = "0.5", features = ["json"] }
serde = { version = "1", features = ["derive"] }
serde_json = "1"
uuid = { version = "1", features = ["serde"] }
