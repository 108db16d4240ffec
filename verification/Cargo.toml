[package]
name = "minipress"
version = "0.1.0"
edition = "2021"
publish = false

[dependencies]
actix-files = "0.6"
actix-identity = "0.4"
actix-session = "0.5"
actix-web = { version = "4", default-features = false, features = ["macros", "cookies", "openssl"] }
anyhow = "1"
dotenv = "0.15"
futures = "0.3"
handlebars = { version = "4", features = ["dir_source"] }
log = "0.4"
oauth2 = { version = "4", default-features = false, features = ["reqwest", "native-tls"] }
openssl = "0.10"
serde = { version = "1", features = ["derive"] }
serde_derive = "1"
serde_json = "1"
simple_logger = { version = "5", default-features = false }
slug = "0.1"
sqlx = { version = "0.8", default-features = false, features = ["runtime-tokio", "tls-native-tls", "postgres", "uuid", "time", "derive"] }
time = { version = "0.3", features = ["serde", "formatting", "parsing"] }
url = "2"
uuid = "1"
