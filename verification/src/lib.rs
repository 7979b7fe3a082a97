//! A verified decoder for a line-oriented, comma-separated combat-log
//! format: a tokenizer that honors quoted and bracketed spans, a registry of
//! event tags and their field layouts, validated field accessors, bitmask
//! and id decoders, and a per-tag event assembler.

pub mod error;
pub mod event;
pub mod util;
