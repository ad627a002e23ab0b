//! What both platform bindings share: the capability interfaces and the
//! conversions between native text encodings, numbers and `String`.
pub mod decimal;
pub mod interface;
pub mod narrow;
pub mod trim;
pub mod wide;
