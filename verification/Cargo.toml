[package]
name = "promptory"
version = "0.1.0"
edition = "2021"
publish = false

[dependencies]
async-openai = { version = "0.18", default-features = false, features = ["rustls"] }
async-trait = "0.1"
chrono = { version = "0.4", default-features = false, features = ["clock", "std"] }
dotenv = "0.15"
env_logger = { version = "0.10", default-features = false }
log = "0.4"
once_cell = "1"
sea-orm = { version = "0.12", default-features = false, features = ["sqlx-sqlite", "runtime-tokio-rustls", "macros"] }
sea-orm-migration = { version = "0.12", default-features = false, features = ["sqlx-sqlite", "runtime-tokio-rustls"] }
serde = { version = "1", features = ["derive"] }
serde_json = "1"
thiserror = "1"
tokio = { version = "1", features = ["macros", "rt-multi-thread"] }
