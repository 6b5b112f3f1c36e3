[package]
name = "polling_backend"
version = "0.1.0"
edition = "2021"
publish = false

[dependencies]
actix-cors = "0.7"
actix-web = "4"
chrono = { version = "0.4", features = ["serde"] }
mongodb = "2"
nanoid = "0.4"
serde = { version = "1", features = ["derive"] }
utoipa = { version = "4", features = ["actix_extras", "chrono"] }
utoipa-swagger-ui = { version = "7", features = ["actix-web"] }
