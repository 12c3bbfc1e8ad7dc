[package]
name = "pdf_shell"
version = "0.1.0"
edition = "2021"
publish = false

[dependencies]
flate2 = "1"
tar = "0.4"
pdfium-render = "*"
curl = { version = "0.4", default-features = false }
