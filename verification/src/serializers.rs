//! The wire formats under test, in the order in which they are benchmarked.
//!
//! A format is written and read by a library of its own, for a
//! representation of the data that carries what that library asks for. The
//! implementation of [`Serializer`](crate::serializer::Serializer) for a
//! format therefore stands beside that representation.

use vstd::prelude::*;

verus! {

/// JSON text.
pub struct JSONSerializer;

/// XML text.
pub struct XMLSerializer;

/// Protocol Buffers.
pub struct ProtobufSerializer;

/// MessagePack.
pub struct MessagepackSerializer;

} // verus!
