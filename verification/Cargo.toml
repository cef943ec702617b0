[package]
name = "ogg_transcoder"
version = "0.1.0"
edition = "2021"
publish = false

[dependencies]
bytes = "1"
actix-web = { version = "4", default-features = false, features = ["macros"] }
futures = "0.3"
subprocess = "0.2"
