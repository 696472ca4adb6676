[package]
name = "rebasing"
version = "0.1.0"
edition = "2021"
publish = false

[dependencies]
bytemuck = { version = "1", features = ["derive"] }
num_enum = "0.7"
serde = { version = "1", features = ["derive"] }
solana-program = "1.18"
spl-pod = "0.2"
