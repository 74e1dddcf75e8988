[package]
name = "salmon"
version = "0.1.0"
edition = "2021"
publish = false

[dependencies]
anyhow = "1"
async-std = "1"
chrono = { version = "0.4", features = ["serde"] }
dotenv = "0.15"
futures = "0.3"
git2 = { version = "0.14", default-features = false }
once_cell = "1"
prost = "0.10"
prost-types = "0.10"
regex = "1"
reqwest = { version = "0.11", default-features = false, features = ["json", "rustls-tls"] }
serde = { version = "1", features = ["derive"] }
serde_json = "1"
thiserror = "1"
tokio = { version = "1", features = ["macros", "rt-multi-thread"] }
tonic = "0.7"
void = "1"
walkdir = "2"
yansi = "0.5"
