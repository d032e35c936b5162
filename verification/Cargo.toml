[package]
name = "prismriver"
version = "0.1.0"
edition = "2021"
publish = false

[dependencies]
arrayvec = "=0.7.8"
chrono = "=0.4.45"
colog = "=1.4.0"
cpal = "=0.15.3"
crossbeam = "=0.8.5"
ffmpeg-next = "=7.1.0"
fluent-uri = "=0.3.2"
log = "=0.4.35"
midly = "=0.5.3"
oxisynth = "=0.1.0"
rb = "=0.4.1"
rubato = "=0.16.2"
samplerate = "=0.2.4"
symphonia = "=0.5.5"
thiserror = "=1.0.69"
