[package]
name = "amd_hypervisor"
version = "0.1.0"
edition = "2021"
publish = false

[dependencies]
x86 = "=0.52.0"
x86_64 = "=0.15.5"
tinyvec = "=1.13.3"
iced-x86 = { version = "=1.22.0", default-features = false, features = ["std", "decoder", "encoder", "block_encoder", "instr_info"] }
log = "=0.4.35"
widestring = "=1.2.1"
bitfield = "=0.20.0"
bitflags = "=2.13.2"
snafu = "=0.9.2"
once_cell = "=1.21.4"
elain = "=0.3.1"
