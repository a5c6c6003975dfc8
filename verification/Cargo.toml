[package]
name = "gaussian_kde"
version = "0.1.0"
edition = "2021"
publish = false

[dependencies]
rand = "*"
rand_distr = "*"
rand_pcg = "*"
