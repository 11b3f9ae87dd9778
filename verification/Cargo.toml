[package]
name = "sloggers"
version = "2.2.0"
edition = "2021"
publish = false

[dependencies]
chrono = "*"
libc = "*"
libflate = "*"
log = "*"
once_cell = "*"
serde = { version = "*", features = ["derive"] }
slog = "*"
slog-async = "*"
slog-json = "*"
slog-scope = "*"
slog-stdlog = "*"
slog-term = "*"
toml = "*"
