[package]
name = "gpt_bot"
version = "0.1.0"
edition = "2021"
publish = false

[dependencies]
lru = { version = "=0.10.1", default-features = false }
reqwest = { version = "=0.11.27", features = ["json", "blocking"] }
serde = { version = "=1.0.229", features = ["derive"] }
serde_json = "=1.0.154"
serenity = { version = "=0.11.7", features = ["voice"] }
songbird = { version = "=0.3.2", features = ["builtin-queue"] }
tokio = { version = "=1.54.1", features = ["macros", "rt-multi-thread", "time"] }
