[package]
name = "provisioner"
version = "0.1.0"
edition = "2021"
publish = false

[dependencies]
rand = "*"
tokio = { version = "*", default-features = false, features = ["rt-multi-thread", "macros", "time"] }
sqlx = { version = "*", default-features = false, features = ["runtime-tokio", "postgres"] }
aws-config = "*"
aws-sdk-rds = "*"
aws-smithy-types = "*"
