[package]
name = "prisma-query"
version = "0.1.0"
edition = "2021"
publish = false

[dependencies]
failure = "0.1"
native-tls = "0.2"
postgres = "0.16.0-rc.1"
r2d2 = "0.8"
r2d2_postgres = "0.15.0-rc.1"
tokio-postgres-native-tls = "0.1.0-rc.1"
url = "2"
