[package]
name = "geodesic_routines"
version = "0.1.0"
edition = "2021"
publish = false

[dependencies]
geozero = { version = "0.15.1", default-features = false }
proj4rs = { version = "0.3.0", default-features = false }
