use std::fmt;
use std::marker::PhantomData;

use serde::de::DeserializeSeed;
use serde::de::Error;
use serde::de::MapAccess;
use serde::de::SeqAccess;
use serde::de::Visitor;
use serde::ser::SerializeMap;
use serde::ser::SerializeSeq;
use serde::Deserialize;
use serde::Deserializer;
use serde::Serialize;
use serialize_rust::benchmark::check_round_trip;
use serialize_rust::benchmark::evaluate_codec;
use serialize_rust::benchmark::Baseline;
use serialize_rust::benchmark::CompressionRatio;
use serialize_rust::benchmark::RoundTrip;
use serialize_rust::data::SerializableData;
use serialize_rust::data::Token;
use serialize_rust::datagen::RandomSource;
use serialize_rust::datasets::generate_dataset_flat_intlist;
use serialize_rust::serializer::Serializer;
use serialize_rust::serializers::JSONSerializer;
use serialize_rust::serializers::MessagepackSerializer;

struct Wire(SerializableData);

struct Lent<'a>(&'a SerializableData);

impl Serialize for Wire {
    fn serialize<S: serde::Serializer>(&self, serializer: S) -> Result<S::Ok, S::Error> {
        Lent(&self.0).serialize(serializer)
    }
}

impl Serialize for Lent<'_> {
    fn serialize<S: serde::Serializer>(&self, serializer: S) -> Result<S::Ok, S::Error> {
        match self.0 {
            SerializableData::Boolean(value) => serializer.serialize_bool(*value),
            SerializableData::Integer(value) => serializer.serialize_i32(*value),
            SerializableData::BigInteger(value) => serializer.serialize_i64(*value),
            SerializableData::Float(bits) => serializer.serialize_f32(f32::from_bits(*bits)),
            SerializableData::BigFloat(bits) => serializer.serialize_f64(f64::from_bits(*bits)),
            SerializableData::StringLiteral(value) => serializer.serialize_str(value),
            SerializableData::KeyValuePair(key, value) => {
                let mut map = serializer.serialize_map(Some(1))?;
                map.serialize_entry(key, &Lent(value))?;
                map.end()
            }
            SerializableData::List(values) => {
                let mut seq = serializer.serialize_seq(Some(values.len()))?;
                for value in values {
                    seq.serialize_element(&Lent(value))?;
                }
                seq.end()
            }
        }
    }
}

struct AnyData;

struct AnyVisitor;

fn read<E: Error>(token: Token) -> Result<SerializableData, E> {
    SerializableData::from_token(token).map_err(E::custom)
}

impl<'de> Deserialize<'de> for Wire {
    fn deserialize<D: Deserializer<'de>>(deserializer: D) -> Result<Self, D::Error> {
        AnyData.deserialize(deserializer).map(Wire)
    }
}

impl<'de> DeserializeSeed<'de> for AnyData {
    type Value = SerializableData;

    fn deserialize<D: Deserializer<'de>>(self, deserializer: D) -> Result<Self::Value, D::Error> {
        deserializer.deserialize_any(AnyVisitor)
    }
}

impl<'de> Visitor<'de> for AnyVisitor {
    type Value = SerializableData;

    fn expecting(&self, formatter: &mut fmt::Formatter) -> fmt::Result {
        formatter.write_str("a SerializableData variant")
    }

    fn visit_bool<E: Error>(self, value: bool) -> Result<Self::Value, E> {
        read(Token::Boolean(value))
    }

    fn visit_i32<E: Error>(self, value: i32) -> Result<Self::Value, E> {
        read(Token::Signed(value))
    }

    fn visit_i64<E: Error>(self, value: i64) -> Result<Self::Value, E> {
        read(Token::BigSigned(value))
    }

    fn visit_u32<E: Error>(self, value: u32) -> Result<Self::Value, E> {
        read(Token::Unsigned(value))
    }

    fn visit_u64<E: Error>(self, value: u64) -> Result<Self::Value, E> {
        read(Token::BigUnsigned(value))
    }

    fn visit_f32<E: Error>(self, value: f32) -> Result<Self::Value, E> {
        read(Token::Float(value.to_bits()))
    }

    fn visit_f64<E: Error>(self, value: f64) -> Result<Self::Value, E> {
        read(Token::BigFloat(value.to_bits()))
    }

    fn visit_str<E: Error>(self, value: &str) -> Result<Self::Value, E> {
        read(Token::Text(value.to_string()))
    }

    fn visit_string<E: Error>(self, value: String) -> Result<Self::Value, E> {
        read(Token::Text(value))
    }

    fn visit_map<M: MapAccess<'de>>(self, mut access: M) -> Result<Self::Value, M::Error> {
        let first = access.next_entry_seed(PhantomData::<String>, AnyData)?;
        read(Token::Entry(first))
    }

    fn visit_seq<A: SeqAccess<'de>>(self, mut access: A) -> Result<Self::Value, A::Error> {
        let mut elements = Vec::new();
        while let Some(element) = access.next_element_seed(AnyData)? {
            elements.push(element);
        }
        read(Token::Sequence(elements))
    }
}

impl Serializer<Wire> for JSONSerializer {
    fn serialize(data: &Wire) -> Result<Vec<u8>, String> {
        serde_json::to_vec(&data).map_err(|err| err.to_string())
    }

    fn deserialize(data: &Vec<u8>) -> Result<Wire, String> {
        serde_json::from_slice(data).map_err(|err| err.to_string())
    }
}

impl Serializer<Wire> for MessagepackSerializer {
    fn serialize(data: &Wire) -> Result<Vec<u8>, String> {
        let mut buf = Vec::new();
        match data.serialize(&mut rmp_serde::Serializer::new(&mut buf)) {
            Ok(_) => Ok(buf),
            Err(error) => Err(error.to_string()),
        }
    }

    fn deserialize(data: &Vec<u8>) -> Result<Wire, String> {
        rmp_serde::from_slice(data.as_slice()).map_err(|err| err.to_string())
    }
}

fn to_json(data: SerializableData) -> Vec<u8> {
    <JSONSerializer as Serializer<Wire>>::serialize(&Wire(data)).unwrap()
}

fn from_json(text: &str) -> Result<SerializableData, String> {
    <JSONSerializer as Serializer<Wire>>::deserialize(&text.as_bytes().to_vec()).map(|wire| wire.0)
}

fn through_json(data: &SerializableData) -> Result<SerializableData, String> {
    let bytes = to_json(data.clone());
    <JSONSerializer as Serializer<Wire>>::deserialize(&bytes).map(|wire| wire.0)
}

fn through_messagepack(data: &SerializableData) -> Result<SerializableData, String> {
    let bytes = <MessagepackSerializer as Serializer<Wire>>::serialize(&Wire(data.clone()))?;
    <MessagepackSerializer as Serializer<Wire>>::deserialize(&bytes).map(|wire| wire.0)
}

fn pair(key: &str, value: SerializableData) -> SerializableData {
    SerializableData::KeyValuePair(String::from(key), Box::new(value))
}

#[test]
fn json_writes_lists_and_pairs() {
    let data = SerializableData::List(vec![
        SerializableData::Integer(1),
        SerializableData::BigInteger(-2),
        SerializableData::Boolean(true),
        SerializableData::StringLiteral(String::from("x")),
        pair("k", SerializableData::List(vec![])),
        SerializableData::BigFloat(1.5f64.to_bits()),
        SerializableData::Float(0.25f32.to_bits()),
    ]);
    assert_eq!(to_json(data), b"[1,-2,true,\"x\",{\"k\":[]},1.5,0.25]".to_vec());
}

#[test]
fn json_reads_every_kind_of_value() {
    let data = from_json("[true, 7, -7, 1.5, \"text\", {\"key\": [1]}, []]").unwrap();
    let expected = SerializableData::List(vec![
        SerializableData::Boolean(true),
        SerializableData::BigInteger(7),
        SerializableData::BigInteger(-7),
        SerializableData::BigFloat(1.5f64.to_bits()),
        SerializableData::StringLiteral(String::from("text")),
        pair("key", SerializableData::List(vec![SerializableData::BigInteger(1)])),
        SerializableData::List(vec![]),
    ]);
    assert!(data.structurally_equal(&expected));
}

#[test]
fn json_reads_a_large_unsigned_number_as_signed_of_the_same_bits() {
    let data = from_json("18446744073709551615").unwrap();
    assert!(data.structurally_equal(&SerializableData::BigInteger(-1)));
}

#[test]
fn json_rejects_a_map_without_entry() {
    let error = from_json("{}").unwrap_err();
    assert!(error.contains("Expected a key-value pair"));
}

#[test]
fn json_rejects_truncated_input() {
    assert!(from_json("[1, 2").is_err());
    assert!(from_json("").is_err());
    assert!(from_json("{\"key\": ").is_err());
}

#[test]
fn json_preserves_wide_numbers_text_and_structure() {
    let data = SerializableData::List(vec![
        SerializableData::BigInteger(5),
        SerializableData::BigInteger(-5),
        SerializableData::BigFloat(0.1f64.to_bits()),
        SerializableData::StringLiteral(String::from("caf\u{e9} \"quoted\"")),
        pair("k", pair("l", SerializableData::Boolean(false))),
        SerializableData::List(vec![]),
    ]);
    assert_eq!(check_round_trip(&data, &through_json(&data)), RoundTrip::Preserved);
}

#[test]
fn json_alters_narrow_numbers_and_the_check_tells() {
    let narrow = SerializableData::List(vec![SerializableData::Integer(5)]);
    let decoded = through_json(&narrow);
    assert_eq!(check_round_trip(&narrow, &decoded), RoundTrip::Altered);
    let widened = SerializableData::List(vec![SerializableData::BigInteger(5)]);
    assert_eq!(check_round_trip(&widened, &decoded), RoundTrip::Preserved);
    let float = SerializableData::Float(0.5f32.to_bits());
    assert_eq!(check_round_trip(&float, &through_json(&float)), RoundTrip::Altered);
}

#[test]
fn json_round_trip_of_unreadable_bytes_is_rejected() {
    let data = SerializableData::Integer(1);
    assert_eq!(check_round_trip(&data, &from_json("[")), RoundTrip::Rejected);
}

#[test]
fn messagepack_preserves_narrow_floats_and_order() {
    let data = SerializableData::List(vec![
        SerializableData::Float(0.5f32.to_bits()),
        SerializableData::BigFloat(0.25f64.to_bits()),
        SerializableData::StringLiteral(String::from("abc")),
        SerializableData::Boolean(true),
        pair("key", SerializableData::StringLiteral(String::from("value"))),
    ]);
    assert_eq!(check_round_trip(&data, &through_messagepack(&data)), RoundTrip::Preserved);
}

#[test]
fn messagepack_packs_small_integers_into_one_byte_each() {
    let data = SerializableData::List(vec![
        SerializableData::Integer(1),
        SerializableData::Integer(2),
        SerializableData::Integer(3),
    ]);
    let sizes = Baseline::measure(&data).unwrap();
    let record = evaluate_codec::<Wire, MessagepackSerializer>(
        "three",
        "Messagepack",
        sizes,
        &Wire(data),
    );
    assert_eq!(record.datasize_serialized, Some(4));
    assert_eq!(
        record.compression_ratio,
        Some(CompressionRatio { payload_size: 12, encoded_size: 4 })
    );
    assert!(record.serialization_time.is_some());
    assert!(record.deserialization_time.is_some());
}

#[test]
fn json_benchmark_of_a_generated_list_records_its_encoded_size() {
    let mut source = RandomSource::from_seed(21);
    let data = generate_dataset_flat_intlist(4000, &mut source);
    let sizes = Baseline::measure(&data).unwrap();
    let expected = to_json(data.clone()).len() as u64;
    let record = evaluate_codec::<Wire, JSONSerializer>("list.json", "JSON", sizes, &Wire(data));
    assert_eq!(record.dataset, "list.json");
    assert_eq!(record.protocol, "JSON");
    assert_eq!(record.datasize_memory, sizes.memory_size);
    assert_eq!(record.datasize_serialized, Some(expected));
    assert_eq!(
        record.compression_ratio,
        Some(CompressionRatio { payload_size: 4000, encoded_size: expected })
    );
    assert!(expected > 2000);
    assert!(record.serialization_time.unwrap().nanos < 1_000_000_000);
    assert!(record.deserialization_time.unwrap().nanos < 1_000_000_000);
}
