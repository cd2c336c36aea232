[package]
name = "brig"
version = "0.1.0"
edition = "2021"
publish = false

[dependencies]
iced-x86 = { version = "1", default-features = false, features = ["std", "decoder", "encoder", "block_encoder", "code_asm", "gas"] }
byteorder = "1"
bitset-core = "0.1"
aarch64-paging = "*"
x86_64 = "0.15"
