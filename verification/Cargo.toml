[package]
name = "send_contact_form_message"
version = "0.1.0"
edition = "2021"
publish = false

[dependencies]
lettre = { version = "*", default-features = false, features = ["builder", "smtp-transport", "tokio1", "tokio1-rustls-tls"] }
tinytemplate = "*"
serde = { version = "*", features = ["derive"] }
serde_json = "*"
tokio = { version = "*", features = ["macros", "rt-multi-thread", "sync", "time"] }
reqwest = { version = "*", default-features = false, features = ["json", "rustls-tls"] }
lambda_http = "*"
aws-config = "*"
aws-sdk-secretsmanager = "*"
