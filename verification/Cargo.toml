[package]
name = "ogcapi_poc"
version = "0.1.0"
edition = "2021"
publish = false

[dependencies]
anyhow = "1"
aws-sdk-s3 = "=1.152.0"
aws-smithy-types-convert = { version = "=0.61.1", features = ["convert-chrono"] }
axum = "0.8"
base64 = "0.22"
chrono = { version = "=0.4.45", features = ["serde"] }
csv = "=1.4.0"
dotenv = "0.15"
geo-types = "=0.7.20"
geojson = { version = "=0.24.2", features = ["geo-types"] }
ogcapi-drivers = { version = "=0.3.0", default-features = false, features = ["postgres", "features"] }
ogcapi-types = { version = "=0.3.0", features = ["stac"] }
serde = { version = "1", features = ["derive"] }
serde_json = "=1.0.154"
sqlx = { version = "=0.8.6", default-features = false, features = ["postgres", "runtime-tokio", "json"] }
tokio = { version = "1", features = ["full"] }
tokio-stream = "0.1"
tower-http = { version = "0.6", features = ["validate-request"] }
tracing = "0.1"
url = "2"
uuid = { version = "1", features = ["v4"] }
wkb = "=0.9.3"
