//! A typed model of a stream-gifting request and its event records, with
//! verified encoders and decoders between those types and a generic wire tree.
pub mod codec;
pub mod fields;
pub mod model;
pub mod scalars;
pub mod tagged;
pub mod tree;
