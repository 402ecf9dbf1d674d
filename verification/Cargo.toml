[package]
name = "server_actions"
version = "0.1.0"
edition = "2021"
publish = false

[dependencies]
hex = "=0.4.3"
serde = { version = "=1.0.193", features = ["derive"] }
sha1 = "=0.10.7"
swc_core = { version = "=0.83.42", features = ["common", "ecma_ast", "ecma_utils", "ecma_visit"] }
