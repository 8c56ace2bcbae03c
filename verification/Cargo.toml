[package]
name = "tpc_graph_exec_rs"
version = "0.1.0"
edition = "2021"
publish = false

[dependencies]
rtrb = "*"
core_affinity = "*"
thread-priority = "*"
log = "*"
