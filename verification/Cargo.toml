[package]
name = "lnav_rs_ext"
version = "0.1.0"
edition = "2021"
publish = false

[dependencies]
cookie = "*"
log = "0.4"
log2src = "*"
miette = "*"
prqlc = "*"
rouille = "*"
serde = { version = "1", features = ["derive"] }
serde_json = "1"
uuid = { version = "1", features = ["v4"] }
