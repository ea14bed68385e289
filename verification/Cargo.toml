[package]
name = "traefik_powerdns_bridge"
version = "0.1.0"
edition = "2021"
publish = false

[dependencies]
serde_json = "*"
serde = { version = "*", features = ["derive"] }
anyhow = "*"
reqwest = { version = "*", default-features = false, features = ["json", "blocking"] }
actix-web = { version = "*", default-features = false, features = ["macros"] }
