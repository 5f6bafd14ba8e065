[package]
name = "http_mailer"
version = "0.1.0"
edition = "2021"
publish = false

[dependencies]
clap = { version = "*", features = ["derive"] }
lettre = { version = "*", default-features = false, features = ["smtp-transport", "builder"] }
sha2 = "*"
tiny_http = "*"
