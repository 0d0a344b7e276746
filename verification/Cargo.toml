[package]
name = "rustyping"
version = "0.1.0"
edition = "2021"
publish = false

[dependencies]
ansi_term = "*"
clap = { version = "*", features = ["derive"] }
ctrlc = "*"
hsl = "*"
nix = { version = "*", features = ["user"] }
pnet = "*"
rand = "*"
slog = "*"
slog-term = "*"
