[package]
name = "genproj"
version = "0.1.0"
edition = "2021"
publish = false

[dependencies]
handlebars = "*"
clap = { version = "*", features = ["derive"] }
