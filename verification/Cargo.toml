[package]
name = "eshop_auth"
version = "0.1.0"
edition = "2021"
publish = false

[dependencies]
argon2 = { version = "0.5", features = ["std"] }
rand = "0.8"
serde = { version = "1", features = ["derive"] }
rocket = { version = "0.5", features = ["json"] }
rocket_db_pools = { version = "*", features = ["deadpool_redis"] }
rocket_sync_db_pools = { version = "*", features = ["diesel_postgres_pool"] }
rocket-multipart-form-data = "*"
diesel = { version = "2", features = ["postgres", "chrono", "numeric"] }
chrono = { version = "0.4", features = ["serde"] }
bigdecimal = { version = "0.4", features = ["serde"] }
log = "0.4"
