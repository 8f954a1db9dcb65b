[package]
name = "sassas"
version = "0.1.0"
edition = "2021"
publish = false

[dependencies]
regex = "1"
clap = "2"
memmap = "0.5"
elf = "*"
itertools = "*"
num = "*"
