//! A benchmark harness for serialization formats, with a verified core.

pub mod benchmark;
pub mod data;
pub mod datagen;
pub mod datasets;
pub mod model;
pub mod report;
pub mod serializer;
pub mod serializers;
pub mod text;
