[package]
name = "php_docbook"
version = "0.1.0"
edition = "2021"
publish = false

[dependencies]
anstyle = "=1.0.14"
clap = { version = "=4.6.7", features = ["derive"] }
color-eyre = "=0.6.5"
crossterm = { version = "=0.29.0", features = ["event-stream"] }
derive_more = { version = "=2.1.1", features = ["display"] }
fancy-regex = "=0.20.0"
futures-util = "=0.3.34"
fuzzy-matcher = "=0.3.7"
glob = "=0.3.4"
indoc = "=2.0.8"
libxml = "=0.3.3"
ratatui = "=0.30.2"
serde = { version = "=1.0.229", features = ["derive"] }
thiserror = "=2.0.21"
tokio = { version = "=1.54.1", features = ["full"] }
tracing = "=0.1.44"
tui-input = "=0.15.5"
