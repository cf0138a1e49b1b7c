[package]
name = "gl_obj"
version = "0.1.0"
edition = "2021"
publish = false

[dependencies]
gl = "0.14"
glutin = "0.24"
rand = "0.7"
structopt = "0.3"
