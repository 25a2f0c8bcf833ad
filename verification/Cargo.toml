[package]
name = "crud_with_sea_orm"
version = "0.1.0"
edition = "2021"
publish = false

[dependencies]
actix-web = { version = "4", default-features = false, features = ["macros"] }
async-trait = "0.1"
chrono = { version = "0.4", default-features = false }
env_logger = "*"
sea-orm = { version = "1", default-features = false, features = ["macros", "with-chrono"] }
sea-orm-migration = { version = "1", default-features = false }
serde = { version = "1", features = ["derive"] }
