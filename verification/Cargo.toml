[package]
name = "ssh_exec"
version = "0.1.0"
edition = "2021"
publish = false

[dependencies]
async-ssh = "*"
failure = "*"
futures = "0.1"
thrussh-keys = "*"
tokio-core = "*"
tokio-io = "*"
tokio-timer = "0.2"
