[package]
name = "firestoredb"
version = "0.1.0"
edition = "2021"
publish = false

[dependencies]
firestore = "0.32"
gcloud-sdk = "0.20"
serde = { version = "1", features = ["derive"] }
