[package]
name = "atomecs"
version = "0.1.0"
edition = "2021"
publish = false

[dependencies]
byteorder = "1"
specs = "*"
nalgebra = "*"
rand = "0.8"
rand_distr = "0.4"
serde = { version = "1", features = ["derive"] }
serde_json = "1"
nbody_barnes_hut = "*"

[dev-dependencies]
assert_approx_eq = "1"
