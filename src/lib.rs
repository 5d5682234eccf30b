//! A client-side codec for the 48-byte NTP header, with the field semantics
//! it carries and the decisions of a single query/reply exchange.

pub mod exchange;
pub mod fields;
pub mod fixed;
pub mod packet;
pub mod text;
