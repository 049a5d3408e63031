[package]
name = "pgx_core"
version = "0.1.0"
edition = "2021"
publish = false

[dependencies]
pgx-pg-sys = { version = "0.4", default-features = false, features = ["pg14"] }
