[package]
name = "shop_domain"
version = "0.1.0"
edition = "2021"
publish = false

[dependencies]
uuid = { version = "*", features = ["v4"] }
easy-hasher = "*"
rusty-money = "*"
serde = { version = "*", features = ["derive"] }
jsonwebtoken = "*"
sea-orm = { version = "*", default-features = false, features = ["macros"] }
async-trait = "*"
dotenv = "*"
