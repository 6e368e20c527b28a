//! Helpers that no single service owns.

pub mod image_utils;
