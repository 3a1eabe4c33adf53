[package]
name = "traffic_light"
version = "0.1.0"
edition = "2021"
publish = false

[dependencies]
cortex-m-rt = "=0.7.7"
defmt-rtt = "=1.3.1"
embassy-executor = { version = "=0.9.1", features = ["arch-spin", "executor-thread"] }
embassy-rp = { version = "=0.10.0", features = ["rp2040", "time-driver", "critical-section-impl"] }
embassy-time = "=0.5.1"
panic-probe = { version = "=1.0.0", features = ["print-defmt"] }
