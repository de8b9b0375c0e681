[package]
name = "rsmorphy_lemmatizer"
version = "0.1.0"
edition = "2021"
publish = false

[dependencies]
regex = "=1.13.1"
rayon = "=1.12.0"
rsmorphy = "=0.3.5"
pyo3 = "=0.29.3"
