[package]
name = "stock_new_report"
version = "0.1.0"
edition = "2021"
publish = false

[dependencies]
chrono = "0.4"
serde = { version = "1", features = ["derive"] }
serde_json = "1"
log = "0.4"
bson = "2"
mongodb = "2"
actix-web = { version = "4", default-features = false, features = ["macros"] }
