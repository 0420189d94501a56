[package]
name = "templo"
version = "0.1.0"
edition = "2021"
publish = false

[dependencies]
chrono = "0.4"
rust-crypto = "0.2"
rand = "0.7"
serde = { version = "1", features = ["derive"] }
serde_json = "1"
diesel = { version = "1.4", features = ["postgres", "chrono"] }
rocket = "0.4"
rocket_contrib = { version = "0.4", default-features = false, features = ["json", "handlebars_templates"] }
rocket-multipart-form-data = "0.9"
ws = "0.9"
handlebars = "*"
new-tokio-smtp = "*"
tokio = "0.1"
futures = "0.1"
vec1 = "1"
dotenv = "0.15"
log = "0.4"
sitemap = "0.4"
