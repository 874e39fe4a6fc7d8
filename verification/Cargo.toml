[package]
name = "bugtrack"
version = "0.1.0"
edition = "2021"
publish = false

[dependencies]
jsonwebtoken = "=9.3.1"
bcrypt = "=0.19.3"
uuid = { version = "=1.27.0", features = ["v4"] }
serde_json = "=1.0.151"
serde = { version = "=1.0.229", features = ["derive"] }
actix-web = "=4.15.0"
futures-util = "=0.3.34"
chrono = "=0.4.45"
dotenv = "=0.15.0"
tera = "=2.4.0"
