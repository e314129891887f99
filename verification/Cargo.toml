[package]
name = "task_pool"
version = "0.1.0"
edition = "2021"
publish = false

[dependencies]
circular-buffer = "=1.2.1"
crossbeam-queue = "=0.3.14"
pretty-duration = "=0.1.1"
