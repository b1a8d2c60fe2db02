[package]
name = "gluegun_idl"
version = "0.1.0"
edition = "2021"
publish = false

[dependencies]
convert_case = "*"
syn = { version = "2", features = ["full"] }
proc-macro2 = { version = "1", features = ["span-locations"] }
serde = { version = "1", features = ["derive"] }
serde_json = "1"
anyhow = "1"
