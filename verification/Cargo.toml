[package]
name = "docx_tool"
version = "0.1.0"
edition = "2021"
publish = false

[dependencies]
sha2 = "*"
hex = "*"
serde_json = "*"
serde = { version = "*", features = ["derive"] }
docx-rs = "*"
docx-handlebars = "*"
clap = { version = "*", default-features = false, features = ["std"] }
base64 = "*"
ureq = { version = "*", default-features = false }
gluesql = { version = "*", default-features = false }
async-trait = "*"
futures = "*"
