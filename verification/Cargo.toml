[package]
name = "efiboot"
version = "0.1.0"
edition = "2021"

[dependencies]
elf_loader = "*"
