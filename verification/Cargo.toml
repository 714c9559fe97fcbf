[package]
name = "bank_of_sol"
version = "0.1.0"
edition = "2021"
publish = false

[dependencies]
anchor-lang = { version = "=0.29.0", features = ["init-if-needed"] }
anchor-spl = { version = "=0.29.0", features = ["metadata"] }
decimal-wad = "=0.1.9"
muldiv = "=1.0.1"
num_enum = "=0.7.6"
raydium-amm-v3 = { version = "=0.1.0", features = ["no-entrypoint"] }
spl-memo = { version = "=4.0.0", features = ["no-entrypoint"] }
spl-token = "=4.0.0"
