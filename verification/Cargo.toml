[package]
name = "badger"
version = "0.1.0"
edition = "2021"
publish = false

[dependencies]
ab_glyph = "*"
shield-maker = "*"
actix-web = { version = "*", default-features = false, features = ["macros"] }
reqwest = { version = "*", default-features = false }
env_logger = "*"
async-trait = "*"
