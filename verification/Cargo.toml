[package]
name = "robot_patterns"
version = "0.1.0"
edition = "2021"
publish = false

[dependencies]
actix-web = "=4.15.0"
serde = { version = "=1.0.229", features = ["derive"] }
utoipa = { version = "=6.0.0", features = ["actix_extras"] }
utoipa-swagger-ui = { version = "=10.0.1", features = ["actix-web", "vendored"] }
