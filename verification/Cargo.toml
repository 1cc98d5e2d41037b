[package]
name = "todolist"
version = "0.1.0"
edition = "2021"
publish = false

[dependencies]
chrono = "0.4"
textwrap = "0.16"
ratatui = "0.29"
crossterm = "0.28"
tui-textarea = "0.7"
sqlx = { version = "0.8", default-features = false, features = ["sqlite", "runtime-tokio", "derive"] }
tokio = { version = "1", features = ["rt-multi-thread", "macros"] }
color-eyre = "0.6"
