[package]
name = "chat_relay"
version = "0.1.0"
edition = "2021"
publish = false
rust-version = "1.95"

[dependencies]
anyhow = "=1.0.104"
askama = "=0.16.1"
async-openai = { version = "=0.42.2", features = ["chat-completion"] }
bon = "=3.10.3"
derive_more = { version = "=2.1.1", features = ["constructor"] }
dotenvy = "=0.15.7"
dptree = "=0.5.1"
dynosaur = "=0.3.1"
envy = "=0.4.2"
isolang = "=2.4.0"
jiff = "=0.2.38"
# Held at 0.1.1 for teloxide-core: takecell 0.1.2 needs rustc 1.96, above rust-version.
takecell = "=0.1.1"
serde = { version = "=1.0.229", features = ["derive"] }
teloxide = { version = "=0.17.0", default-features = false, features = ["ctrlc_handler", "rustls"] }
tokio = { version = "=1.54.1", features = ["macros", "rt-multi-thread", "time"] }
tracing = "=0.1.44"
tracing-subscriber = { version = "=0.3.23", features = ["env-filter"] }
trait-variant = "=0.1.3"
