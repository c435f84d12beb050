use serialize_rust::data::SerializableData;
use serialize_rust::benchmark::DatasetResult;
use serialize_rust::report::Report;
use serialize_rust::report::ResultData;
use serialize_rust::report::SysInfo;
use serialize_rust::serializer::Serializer;
use serialize_rust::serializers::JSONSerializer;
use serialize_rust::serializers::MessagepackSerializer;
use serialize_rust::serializers::ProtobufSerializer;
use serialize_rust::serializers::XMLSerializer;

/// Data that every format writes as its own length, so many times as the
/// format has letters in its name.
struct Sample(usize);

fn written(data: &Sample, times: usize) -> Result<Vec<u8>, String> {
    Ok(vec![0; data.0 * times])
}

impl Serializer<Sample> for JSONSerializer {
    fn serialize(data: &Sample) -> Result<Vec<u8>, String> {
        written(data, 4)
    }

    fn deserialize(data: &Vec<u8>) -> Result<Sample, String> {
        Ok(Sample(data.len() / 4))
    }
}

impl Serializer<Sample> for XMLSerializer {
    fn serialize(data: &Sample) -> Result<Vec<u8>, String> {
        if data.0 % 2 == 0 {
            written(data, 3)
        } else {
            Err(String::from("odd data has no representation"))
        }
    }

    fn deserialize(data: &Vec<u8>) -> Result<Sample, String> {
        Ok(Sample(data.len() / 3))
    }
}

impl Serializer<Sample> for ProtobufSerializer {
    fn serialize(data: &Sample) -> Result<Vec<u8>, String> {
        written(data, 8)
    }

    fn deserialize(data: &Vec<u8>) -> Result<Sample, String> {
        Ok(Sample(data.len() / 8))
    }
}

impl Serializer<Sample> for MessagepackSerializer {
    fn serialize(data: &Sample) -> Result<Vec<u8>, String> {
        written(data, 11)
    }

    fn deserialize(data: &Vec<u8>) -> Result<Sample, String> {
        Ok(Sample(data.len() / 11))
    }
}

fn overhead() -> u64 {
    std::mem::size_of::<SerializableData>() as u64
}

fn host() -> SysInfo {
    SysInfo::from_readings(
        Some(String::from("Example CPU")),
        Some(8),
        17_179_869_184,
        Some(String::from("Example OS")),
    )
}

fn record_of(entry: &ResultData) -> &DatasetResult {
    match entry {
        ResultData::ResultSet(record) => record,
        ResultData::SystemInfo(_) => panic!("not a record"),
    }
}

#[test]
fn host_description_keeps_what_was_read() {
    let info = host();
    assert_eq!(info.cpu, "Example CPU");
    assert_eq!(info.cores, 8);
    assert_eq!(info.memory, 17_179_869_184);
    assert_eq!(info.os, "Example OS");
}

#[test]
fn host_description_names_what_is_unknown() {
    let info = SysInfo::from_readings(None, None, 0, None);
    assert_eq!(info.cpu, "Unknown CPU");
    assert_eq!(info.cores, 0);
    assert_eq!(info.memory, 0);
    assert_eq!(info.os, "Unknown OS");
}

#[test]
fn host_description_keeps_the_low_bits_of_a_huge_core_count() {
    let info = SysInfo::from_readings(None, Some((1usize << 32) + 6), 0, None);
    assert_eq!(info.cores, 6);
    let info = SysInfo::from_readings(None, Some(u32::MAX as usize), 0, None);
    assert_eq!(info.cores, u32::MAX);
}

#[test]
fn empty_report_holds_only_the_host() {
    let report = Report::new();
    assert_eq!(report.len(), 0);
    let entries = report.finish(host());
    assert_eq!(entries.len(), 1);
    match &entries[0] {
        ResultData::SystemInfo(wrapper) => {
            assert_eq!(wrapper.system_info.cpu, "Example CPU");
            assert_eq!(wrapper.system_info.cores, 8);
        }
        ResultData::ResultSet(_) => panic!("not the host"),
    }
}

#[test]
fn records_are_ordered_by_dataset_then_by_format() {
    let first = SerializableData::Integer(1);
    let second = SerializableData::List(vec![SerializableData::BigInteger(2)]);
    let report = Report::new().evaluate::<Sample>("D1", &first, &Sample(2)).ok().unwrap();
    assert_eq!(report.len(), 4);
    let report = report.evaluate::<Sample>("D2", &second, &Sample(4)).ok().unwrap();
    assert_eq!(report.len(), 8);
    let small = 4 + overhead();
    let large = 8 + 2 * overhead();
    let entries = report.finish(host());
    assert_eq!(entries.len(), 9);
    assert!(matches!(entries[0], ResultData::SystemInfo(_)));
    let expected = [
        ("D1", "JSON", small, 8),
        ("D1", "XML", small, 6),
        ("D1", "Protobuf", small, 16),
        ("D1", "Messagepack", small, 22),
        ("D2", "JSON", large, 16),
        ("D2", "XML", large, 12),
        ("D2", "Protobuf", large, 32),
        ("D2", "Messagepack", large, 44),
    ];
    for (entry, (dataset, protocol, memory, encoded)) in entries[1..].iter().zip(expected.iter()) {
        let record = record_of(entry);
        assert_eq!(record.dataset, *dataset);
        assert_eq!(record.protocol, *protocol);
        assert_eq!(record.datasize_memory, *memory);
        assert_eq!(record.datasize_serialized, Some(*encoded));
    }
}

#[test]
fn order_does_not_depend_on_what_was_measured() {
    let data = SerializableData::Boolean(true);
    let report = Report::new()
        .evaluate::<Sample>("slow", &data, &Sample(1001))
        .ok()
        .unwrap()
        .evaluate::<Sample>("fast", &data, &Sample(0))
        .ok()
        .unwrap();
    let entries = report.finish(host());
    let names: Vec<(&str, &str)> = entries[1..]
        .iter()
        .map(|entry| (record_of(entry).dataset.as_str(), record_of(entry).protocol.as_str()))
        .collect();
    assert_eq!(
        names,
        vec![
            ("slow", "JSON"),
            ("slow", "XML"),
            ("slow", "Protobuf"),
            ("slow", "Messagepack"),
            ("fast", "JSON"),
            ("fast", "XML"),
            ("fast", "Protobuf"),
            ("fast", "Messagepack"),
        ]
    );
    assert_eq!(record_of(&entries[2]).datasize_serialized, None);
    assert_eq!(record_of(&entries[6]).datasize_serialized, Some(0));
}
