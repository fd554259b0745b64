[package]
name = "upkg"
version = "0.1.0"
edition = "2021"
publish = false

[dependencies]
git2 = { version = "*", default-features = false }
sha2 = "*"
indicatif = "*"
mlua = { version = "*", features = ["luau", "serialize"] }
serde = { version = "*", features = ["derive"] }
strum = { version = "*", features = ["derive"] }
