[package]
name = "smmo_api"
version = "0.1.0"
edition = "2021"
publish = false

[dependencies]
reqwest = { version = "=0.13.5", default-features = false, features = ["query"] }
log = "=0.4.34"
dotenv = "=0.15.0"
