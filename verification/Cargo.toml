[package]
name = "search_in_terminal"
version = "0.1.0"
edition = "2021"
publish = false

[dependencies]
anyhow = "*"
crossterm = "*"
dirs = "*"
moka = { version = "*", features = ["sync"] }
once_cell = "*"
open = "*"
rand = "0.8"
ratatui = "*"
reqwest = { version = "*", default-features = false, features = ["cookies", "rustls-tls"] }
scraper = "*"
serde = { version = "*", features = ["derive"] }
thiserror = "*"
tokio = { version = "*", features = ["macros", "rt-multi-thread", "time"] }
toml = "*"
urlencoding = "*"
