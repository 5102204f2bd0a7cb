[package]
name = "map_lifecycle"
version = "0.1.0"
edition = "2021"
publish = false

[dependencies]
rocket = { version = "0.5", features = ["json"] }
rocket_okapi = { version = "*", features = ["rapidoc"] }
schemars = "0.8"
serde = { version = "1", features = ["derive"] }
serde_json = "1"
structopt = "0.3"
structsy = "*"
structsy-derive = "*"
reqwest = { version = "0.12", default-features = false, features = ["rustls-tls"] }
