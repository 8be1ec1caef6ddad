[package]
name = "danta"
version = "0.1.0"
edition = "2021"
publish = false

[dependencies]
hex = "=0.4.3"
chrono = { version = "=0.4.45", default-features = false, features = ["alloc"] }
dotenv = "=0.15.0"
serde = { version = "=1.0.229", features = ["derive"] }
serde_json = "=1.0.154"
simple_excel_writer = "=0.2.0"
qrcode = { version = "=0.12.0", default-features = false, features = ["image"] }
image = { version = "=0.23.14", default-features = false, features = ["png"] }
diesel = { version = "=1.4.8", default-features = false, features = ["sqlite", "chrono"] }
tokio = { version = "1", features = ["rt-multi-thread", "macros"] }
rocket = { version = "0.5", features = ["json"] }
rocket_dyn_templates = { version = "0.1", features = ["handlebars"] }
genpdf = { version = "0.2", features = ["images"] }
