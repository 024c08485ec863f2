[package]
name = "doc_pipeline"
version = "0.1.0"
edition = "2021"
publish = false

[dependencies]
git2 = "*"
fs_extra = "*"
dotenv = "*"
serde = { version = "*", features = ["derive"] }
serde_json = "*"
