[package]
name = "federation_services"
version = "0.1.0"
edition = "2021"
publish = false

[dependencies]
actix-cors = "*"
actix-web = { version = "*", default-features = false, features = ["macros"] }
async-graphql = "*"
async-graphql-actix-web = "*"
