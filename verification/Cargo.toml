[package]
name = "shmem_ipc"
version = "0.1.0"
edition = "2021"
publish = false

[dependencies]
memfd = "*"
memmap2 = "*"
