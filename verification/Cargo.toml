[package]
name = "invoice_pdf"
version = "0.1.0"
edition = "2021"
publish = false

[dependencies]
base64 = "0.22"
bigdecimal = "0.4"
chrono = "0.4"
clap = { version = "4", features = ["derive"] }
fantoccini = "*"
minijinja = "2"
serde = { version = "1", features = ["derive"] }
serde_json = "1"
tokio = { version = "1", features = ["macros", "rt-multi-thread"] }
