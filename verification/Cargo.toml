[package]
name = "yarden"
version = "0.1.0"
edition = "2021"
publish = false

[dependencies]
ffmpeg-next = "6"
rodio = "0.17"
softbuffer = "0.2"
winit = "0.28"
winit_input_helper = "0.14"
