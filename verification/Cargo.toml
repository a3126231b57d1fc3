[package]
name = "arcgis"
version = "0.1.0"
edition = "2021"
publish = false

[dependencies]
oauth2 = { version = "4", default-features = false }
url = "2"
reqwest = { version = "*", default-features = false }
tokio = { version = "*", features = ["rt", "macros"] }
dotenv = "*"

[dev-dependencies]
sha2 = "0.10"
base64 = "0.22"
