[package]
name = "proptest_arbitrary_interop"
version = "0.1.0"
edition = "2021"
publish = false

[dependencies]
arbitrary = "1"
proptest = "1"
