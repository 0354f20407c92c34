//! I/O utilities for data export.

pub mod export;
