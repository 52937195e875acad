//! Reflection support data for opaque value types.
//!
//! Two leaf pieces of a runtime reflection subsystem: registering an
//! externally defined identifier type as an atomic ("value") reflected type
//! with a fixed capability set, and a per-type side table naming the
//! reflected field positions a serializer must skip.

pub mod reflect;
pub mod registry;
pub mod type_data;
pub mod uuid_value;
