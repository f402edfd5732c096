[package]
name = "run_tool"
version = "0.1.0"
edition = "2021"
publish = false

[dependencies]
dotenvy = "*"
clap = { version = "*", features = ["derive"] }
serde = { version = "*", features = ["derive"] }
serde_yml = "*"
log = "*"
simple_logger = "*"
notify-debouncer-mini = "*"
exitcode = "*"
