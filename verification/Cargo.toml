[package]
name = "two_people"
version = "0.1.0"
edition = "2021"
publish = false

[dependencies]
rand = "=0.9.5"
rand_chacha = "=0.9.0"
uuid = { version = "=1.29.0", features = ["v4"] }
sqlx = { version = "=0.8.6", default-features = false, features = ["mysql", "runtime-tokio"] }
tokio = { version = "=1.54.1", features = ["rt-multi-thread", "sync"] }
dotenvy = "=0.15.7"
