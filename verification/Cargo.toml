[package]
name = "live_transcript"
version = "0.1.0"
edition = "2021"
publish = false

[dependencies]
dasp = "=0.11.0"
cpal = "=0.15.3"
vosk = "=0.2.0"
