//! Decoder for fixed-point monetary column values (`money` and `smallmoney`)
//! as they appear in a tabular data stream: a length-prefixed binary field is
//! read from a byte source and turned into a scaled numeric value or a null
//! marker.

pub mod error;
pub mod money;
pub mod numeric;
pub mod reader;
