//! The interface that every wire format implements.

use vstd::prelude::*;

verus! {

/// A wire format: it turns data into bytes and, where it can, bytes back
/// into data.
///
/// `W` is the representation of the data that the format reads and writes.
/// A format reports what it cannot represent, and input that it cannot read,
/// as an error with a message; it neither changes nor keeps what it is given.
pub trait Serializer<W> {
    /// The bytes that stand for `data`, or why the format cannot represent it.
    fn serialize(data: &W) -> Result<Vec<u8>, String>;

    /// The data that `data` stands for, or why the bytes cannot be read.
    fn deserialize(data: &Vec<u8>) -> Result<W, String>;

    /// Whether the format can read back what it wrote. A format that only
    /// writes says `false`, and is then never asked to deserialize; a format
    /// that says nothing of its own can.
    fn can_deserialize() -> (able: bool)
        default_ensures
            able,
    {
        true
    }
}

} // verus!
