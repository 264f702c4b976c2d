[package]
name = "e6viu"
version = "0.1.0"
edition = "2021"
publish = false

[dependencies]
base64 = "0.21"
rand = "0.8"
clap = { version = "4", features = ["derive"] }
clap_derive = "4"
crossterm = "0.27"
dotenv = "0.15"
futures-util = "0.3"
indicatif = "0.17"
reqwest = { version = "0.11", default-features = false, features = ["json", "stream"] }
serde = { version = "1", features = ["derive"] }
serde_derive = "1"
serde_json = "1"
tokio = { version = "1", features = ["macros", "rt-multi-thread", "time"] }
viuer = "0.7"
