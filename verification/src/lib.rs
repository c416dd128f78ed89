//! Encoding and decoding of values in the External Data Representation
//! (XDR, RFC 1014): big-endian, aligned to four bytes, with counted strings,
//! opaque data, optional data, sequences, structures and unions.

pub mod alignment;
pub mod de;
pub mod framing;
pub mod kind;
pub mod opaque_data;
pub mod round_trip;
pub mod ser;
pub mod text;
pub mod value;

pub use de::{from_bytes, from_reader, DeserializationError, Deserializer};
pub use kind::{FieldKind, Kind, VariantKind, VariantShape};
pub use ser::{to_bytes, to_writer, SerializationError, Serializer};
pub use value::{Field, Value};
