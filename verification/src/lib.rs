//! Compact, positional serialization code generation for named-field record
//! types.
//!
//! A record type is encoded as a fixed-length ordered tuple of its field
//! values, in declaration order, with no field names in the encoding. This
//! crate holds the code-generation logic: it analyses a model of a record
//! type definition, computes the generic bounds the generated code needs,
//! and produces the serializer and deserializer implementation fragments.

pub mod deser;
pub mod encoding;
pub mod fields;
pub mod generics;
pub mod model;
pub mod ser;
pub mod text;

pub use deser::derive_deser;
pub use model::GenError;
pub use ser::derive_ser;
