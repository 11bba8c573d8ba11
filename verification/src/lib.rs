//! A typed front end over an ordered key-value engine: an order-preserving
//! codec for typed keys, a self-describing codec for typed values, and the
//! lifecycle rules of the handles that share one engine.

pub mod big_endian;
pub mod cursor;
pub mod engine;
pub mod error;
pub mod key_codec;
pub mod lifecycle;
pub mod options;
pub mod order;
pub mod registry;
pub mod text_order;
pub mod traversal;
pub mod tuning;
pub mod value;
pub mod value_codec;
