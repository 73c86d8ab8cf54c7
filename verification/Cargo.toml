[package]
name = "service_vendor"
version = "0.1.0"
edition = "2021"
publish = false

[dependencies]
redis = { version = "0.25", default-features = false }
rust_decimal = "1"
chrono = "0.4"
serde = { version = "1", features = ["derive"] }
serde_json = "1"
once_cell = "1"
dotenv = "0.15"
tokio = { version = "1", features = ["macros", "rt-multi-thread", "net"] }
axum = "0.7"
axum-macros = "0.4"
reqwest = { version = "0.12", default-features = false, features = ["json"] }
sea-orm = { version = "1", default-features = false, features = ["macros", "with-chrono", "with-json", "with-rust_decimal"] }
tower-http = { version = "0.5", features = ["trace"] }
tracing = "0.1"
tracing-subscriber = "0.3"
async-trait = "0.1"
mockall = "0.12"
utoipa = { version = "4", features = ["axum_extras", "chrono"] }
utoipa-swagger-ui = { version = "7", features = ["axum", "vendored"] }
