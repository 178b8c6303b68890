[package]
name = "attractions"
version = "0.1.0"
edition = "2021"
publish = false

[dependencies]
async-trait = "=0.1.92"
axum = "=0.6.20"
bigdecimal = { version = "=0.3.1", features = ["serde"] }
chrono = { version = "=0.4.45", features = ["serde"] }
dotenv = "=0.15.0"
fake = "2"
geoutils = "=0.5.1"
serde = { version = "=1.0.229", features = ["derive"] }
sqlx = { version = "=0.7.4", default-features = false, features = ["runtime-tokio", "postgres", "bigdecimal", "chrono", "macros"] }
strum_macros = "=0.25.3"
tokio = { version = "=1.54.1", features = ["macros", "rt-multi-thread"] }
