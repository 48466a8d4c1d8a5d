//! The HTML pages that the service serves.
pub mod pages;
