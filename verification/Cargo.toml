[package]
name = "hdf5_container"
version = "0.1.0"
edition = "2021"
publish = false

[dependencies]
hdf5 = "0.8"
ndarray = "0.15"
thiserror = "1"
