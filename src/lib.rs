//! A terminal progress indicator: wraps an iterator, counts each pull and
//! draws a frame for it, either a running counter or a bar against a known
//! total.
pub mod laws;
pub mod progress;
pub mod render;
