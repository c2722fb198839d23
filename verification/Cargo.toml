[package]
name = "clipbox"
version = "0.1.0"
edition = "2021"
publish = false

[dependencies]
md-5 = "0.10"
serde = { version = "1", features = ["derive"] }
clipboard-master = "4"
enigo = { version = "0.6", default-features = false, features = ["x11rb"] }
