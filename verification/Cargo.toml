[package]
name = "ec2_instance_connect"
version = "0.1.0"
edition = "2021"
publish = false

[dependencies]
anyhow = "*"
aws-config = { version = "*", default-features = false }
log = "*"
syslog = "*"
tokio = { version = "*", features = ["macros", "rt", "time"] }
users = "*"
