[package]
name = "consensus_overlord"
version = "0.1.0"
edition = "2021"
publish = false

[dependencies]
async-trait = "0.1"
bytes = "=1.12.1"
cita_cloud_proto = "=6.7.2"
clap = { version = "4", features = ["derive"] }
cloud-util = "=0.8.0"
creep = "=0.2.2"
derive_more = { version = "1", features = ["display"] }
hex = "=0.4.3"
libsm = "=0.6.1"
log = "0.4"
ophelia = "=0.3.4"
ophelia-blst = "=0.3.1"
overlord = "=0.4.2"
prost = "=0.12.6"
rlp = "=0.5.2"
serde = "1"
serde_derive = "1"
tokio = { version = "1", features = ["full"] }
tonic = "=0.10.2"
tower = "=0.4.13"
tracing = "0.1"
