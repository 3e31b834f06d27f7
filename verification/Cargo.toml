[package]
name = "hms2mqtt"
version = "0.1.0"
edition = "2021"
publish = false

[dependencies]
aes-gcm = "=0.10.3"
chrono = "=0.4.45"
crc16 = "=0.4.0"
log = "=0.4.35"
protobuf = "=3.7.2"
sha2 = "=0.10.9"
