[package]
name = "lifter"
version = "0.1.0"
edition = "2021"
publish = false

[dependencies]
iced-x86 = { version = "=1.21.0", default-features = false, features = ["std", "decoder", "instr_info"] }
memmap2 = "=0.9.11"
