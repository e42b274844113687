[package]
name = "htmx_todo"
version = "0.1.0"
edition = "2021"
publish = false

[dependencies]
actix-files = "0.6"
actix-web = "4"
derive_more = "0.99"
maud = { version = "0.26", features = ["actix-web"] }
serde = { version = "1", features = ["derive"] }
