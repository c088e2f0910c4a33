[package]
name = "ratquest"
version = "0.1.0"
edition = "2021"
publish = false

[dependencies]
base64 = "=0.22.1"
crossterm = "=0.28.1"
ratatui = "=0.29.0"
reqwest = "=0.12.28"
rusqlite = { version = "=0.32.1", features = ["bundled"] }
thiserror = "=1.0.69"
tokio = { version = "=1.54.1", features = ["rt-multi-thread"] }
tui-realm-treeview = "3.0.0"
tui-textarea = "=0.7.0"
tuirealm = "3"
