[package]
name = "zero_2_prod"
version = "0.1.0"
edition = "2021"
publish = false

[dependencies]
actix-session = { version = "=0.7.2", features = ["cookie-session"] }
actix-web = "=4.15.0"
actix-web-flash-messages = { version = "=0.4.2", features = ["cookies"] }
actix-web-lab = "=0.18.9"
anyhow = "=1.0.104"
argon2 = "=0.5.3"
base64 = "=0.21.7"
chrono = { version = "=0.4.45", default-features = false, features = ["clock"] }
config = "=0.13.4"
hex = "=0.4.3"
hmac = "=0.12.1"
rand = { version = "=0.8.8", features = ["std_rng"] }
reqwest = { version = "=0.11.27", default-features = false, features = ["json", "rustls-tls"] }
secrecy = { version = "=0.8.0", features = ["serde"] }
serde = { version = "=1.0.229", features = ["derive"] }
serde-aux = "=4.7.0"
sha2 = "=0.10.9"
sqlx = { version = "=0.7.4", default-features = false, features = ["runtime-tokio-rustls", "postgres", "uuid", "chrono", "migrate"] }
thiserror = "=1.0.69"
tokio = { version = "=1.53.2", features = ["macros", "rt-multi-thread"] }
tracing = "=0.1.44"
tracing-actix-web = "=0.7.25"
tracing-bunyan-formatter = "=0.3.10"
tracing-log = "=0.2.0"
tracing-subscriber = { version = "=0.3.23", features = ["registry", "env-filter"] }
unicode-segmentation = "=1.13.3"
urlencoding = "=2.1.3"
uuid = { version = "=1.27.0", features = ["v4", "serde"] }
validator = "=0.16.1"
