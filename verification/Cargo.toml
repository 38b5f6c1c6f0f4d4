[package]
name = "lyrics_display"
version = "0.1.0"
edition = "2021"
publish = false

[dependencies]
crossterm = "=0.29.0"
ego-tree = "=0.6.3"
mpris = "=2.1.0"
reqwest = { version = "=0.11.27", default-features = false, features = ["rustls-tls", "blocking"] }
scraper = "=0.13.0"
