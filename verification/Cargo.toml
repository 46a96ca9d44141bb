[package]
name = "graph_reach"
version = "0.1.0"
edition = "2021"
publish = false

[dependencies]
grpc = "=0.8.3"
threadpool = "=1.8.1"
