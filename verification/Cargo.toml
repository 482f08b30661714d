[package]
name = "echo"
version = "0.1.0"
edition = "2021"
publish = false

[dependencies]
anyhow = "1"
clap = { version = "4", features = ["derive"] }
dialoguer = "0.11"
num_cpus = "1"
reqwest = { version = "0.12", default-features = false, features = ["json"] }
serde = { version = "1", features = ["derive"] }
serde_json = "1"
tide = { version = "0.16", default-features = false, features = ["h1-server"] }
tokio = { version = "1", features = ["rt-multi-thread", "net", "time"] }
url = "2"
