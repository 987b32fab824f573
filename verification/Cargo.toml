[package]
name = "floydns"
version = "0.1.0"
edition = "2021"
publish = false

[dependencies]
bcrypt = "0.15"
chrono = "0.4"
dotenv = "0.15"
jsonwebtoken = "9"
lettre = { version = "0.11", features = ["tokio1", "tokio1-native-tls"] }
pest = "2"
pest_derive = "2"
reqwest = { version = "0.11", features = ["json"] }
rocket = { version = "0.5", features = ["json"] }
rocket_dyn_templates = { version = "0.2", features = ["handlebars"] }
serde = { version = "1", features = ["derive"] }
tokio = { version = "1", features = ["fs", "io-util", "sync"] }
