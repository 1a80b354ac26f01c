[package]
name = "pizza_analysis_auto"
version = "0.1.0"
edition = "2021"
publish = false

[dependencies]
whatlang = "=0.16.4"
hashbrown = "=0.17.1"
