[package]
name = "blog_posts"
version = "0.1.0"
edition = "2021"
publish = false

[dependencies]
actix-files = "0.5"
actix-flash = "0.2"
actix-web = { version = "3", default-features = false }
dotenv = "0.15"
sea-orm = { version = "0.12", default-features = false, features = ["macros", "sqlx-mysql", "runtime-async-std-native-tls"] }
serde = { version = "1", features = ["derive"] }
tera = { version = "1", default-features = false }
tracing-subscriber = { version = "0.3", features = ["env-filter"] }
