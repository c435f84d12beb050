//! The benchmark engine: it takes one dataset through one wire format at a
//! time and records what it measured.

use crate::data::node_overhead;
use crate::data::SerializableData;
use crate::model::Value;
use crate::serializer::Serializer;
use crate::serializers::JSONSerializer;
use crate::serializers::MessagepackSerializer;
use crate::serializers::ProtobufSerializer;
use crate::serializers::XMLSerializer;
use std::time::Duration;
use std::time::Instant;
use vstd::prelude::*;

verus! {

/// `std::time::Instant`: a moment in time, of which nothing is known.
#[verifier::external_type_specification]
#[verifier::external_body]
pub struct ExInstant(std::time::Instant);

/// `std::time::Instant::now`: the present moment. Nothing is claimed of it.
pub assume_specification[ std::time::Instant::now ]() -> Instant
;

/// `std::time::Instant::elapsed`: the time since the instant. Nothing is
/// claimed of it.
pub assume_specification[ std::time::Instant::elapsed ](start: &Instant) -> Duration
;

/// `std::time::Duration::as_secs`: the whole seconds of the duration.
/// Nothing is claimed of them.
pub assume_specification[ std::time::Duration::as_secs ](duration: &Duration) -> u64
;

/// `std::time::Duration::subsec_nanos`: the part of the duration beyond its
/// whole seconds, in nanoseconds, which is less than a second.
pub assume_specification[ std::time::Duration::subsec_nanos ](duration: &Duration) -> (nanos: u32)
    ensures
        nanos < 1_000_000_000,
;

/// A span of time: whole seconds, and the nanoseconds beyond them.
#[derive(Debug, Clone, Copy, PartialEq, Eq, Structural)]
pub struct Elapsed {
    pub secs: u64,
    pub nanos: u32,
}

impl Elapsed {
    /// Whether the nanoseconds are less than a second.
    pub open spec fn in_range(self) -> bool {
        self.nanos < 1_000_000_000
    }

    /// The time that has passed since `start`.
    pub fn since(start: &Instant) -> (elapsed: Elapsed)
        ensures
            elapsed.in_range(),
    {
        let duration = start.elapsed();
        Elapsed { secs: duration.as_secs(), nanos: duration.subsec_nanos() }
    }
}

/// How much smaller than its payload a dataset became on the wire: the ratio
/// of `payload_size` to `encoded_size`, kept as its two terms.
#[derive(Debug, Clone, Copy, PartialEq, Eq, Structural)]
pub struct CompressionRatio {
    pub payload_size: u64,
    pub encoded_size: u64,
}

impl CompressionRatio {
    /// Whether the ratio is a number: its divisor is not zero.
    pub open spec fn is_finite(self) -> bool {
        self.encoded_size != 0
    }

    /// Whether the ratio is a number above zero.
    pub open spec fn is_positive(self) -> bool {
        self.encoded_size != 0 && self.payload_size != 0
    }

    /// Whether the ratio is above one: the format took fewer bytes than the
    /// payload has.
    pub open spec fn is_compression(self) -> bool {
        self.encoded_size != 0 && self.payload_size > self.encoded_size
    }
}

/// The sizes of a dataset before any format is applied to it. They are taken
/// once for each dataset and shared by all formats.
#[derive(Debug, Clone, Copy, PartialEq, Eq, Structural)]
pub struct Baseline {
    pub memory_size: u64,
    pub payload_size: u64,
}

impl Baseline {
    /// Whether the sizes of the tree `value` can be taken: its memory
    /// footprint fits in a `usize`.
    pub open spec fn measurable(value: Value) -> bool {
        value.memory_size(node_overhead()) <= usize::MAX
    }

    /// The sizes of the tree `value`, where they can be taken.
    pub open spec fn of(value: Value) -> Baseline
        recommends
            Self::measurable(value),
    {
        Baseline {
            memory_size: value.memory_size(node_overhead()) as u64,
            payload_size: value.payload_size() as u64,
        }
    }

    /// The sizes of `data`; `None` when its memory footprint does not fit in
    /// a `usize`.
    pub fn measure(data: &SerializableData) -> (baseline: Option<Baseline>)
        ensures
            match baseline {
                Some(sizes) => {
                    &&& Self::measurable(data@)
                    &&& sizes == Self::of(data@)
                    &&& sizes.memory_size == data@.memory_size(node_overhead())
                    &&& sizes.payload_size == data@.payload_size()
                },
                None => !Self::measurable(data@),
            },
    {
        proof {
            data@.memory_size_covers_payload(node_overhead());
        }
        match data.checked_memory_size() {
            Some(memory_size) => {
                let payload_size = data.payload_size();
                Some(
                    Baseline {
                        memory_size: memory_size as u64,
                        payload_size: payload_size as u64,
                    },
                )
            },
            None => None,
        }
    }
}

/// What one dataset measured under one format, as plain values. A
/// measurement that was not taken is `None`, never zero.
pub ghost struct Record {
    pub dataset: Seq<char>,
    pub protocol: Seq<char>,
    pub datasize_memory: u64,
    pub datasize_serialized: Option<u64>,
    pub compression_ratio: Option<CompressionRatio>,
    pub serialization_time: Option<Elapsed>,
    pub deserialization_time: Option<Elapsed>,
}

impl Record {
    /// The record of a dataset under a format before anything was measured.
    pub open spec fn blank(
        dataset: Seq<char>,
        protocol: Seq<char>,
        datasize_memory: u64,
    ) -> Record {
        Record {
            dataset,
            protocol,
            datasize_memory,
            datasize_serialized: None,
            compression_ratio: None,
            serialization_time: None,
            deserialization_time: None,
        }
    }

    /// Whether the measurements agree with one another for a dataset of
    /// `payload_size` bytes of payload: the encoded size, the ratio and the
    /// encoding time are there together or not at all, the ratio is that of
    /// the payload to the encoded size, and there is a decoding time only
    /// where there is an encoding.
    pub open spec fn coherent(self, payload_size: u64) -> bool {
        &&& self.serialization_time is Some <==> self.datasize_serialized is Some
        &&& self.compression_ratio == match self.datasize_serialized {
            Some(encoded_size) => Some(CompressionRatio { payload_size, encoded_size }),
            None => None,
        }
        &&& self.deserialization_time is Some ==> self.datasize_serialized is Some
    }

    /// Whether the times that were measured have less than a second of
    /// nanoseconds.
    pub open spec fn times_in_range(self) -> bool {
        &&& self.serialization_time matches Some(elapsed) ==> elapsed.in_range()
        &&& self.deserialization_time matches Some(elapsed) ==> elapsed.in_range()
    }

    /// Whether nothing was measured under the format.
    pub open spec fn is_blank(self) -> bool {
        &&& self.datasize_serialized is None
        &&& self.compression_ratio is None
        &&& self.serialization_time is None
        &&& self.deserialization_time is None
    }
}

/// What one dataset measured under one format.
#[derive(Debug)]
pub struct DatasetResult {
    pub dataset: String,
    pub protocol: String,
    pub datasize_memory: u64,
    pub datasize_serialized: Option<u64>,
    pub compression_ratio: Option<CompressionRatio>,
    pub serialization_time: Option<Elapsed>,
    pub deserialization_time: Option<Elapsed>,
}

impl View for DatasetResult {
    type V = Record;

    open spec fn view(&self) -> Record {
        Record {
            dataset: self.dataset@,
            protocol: self.protocol@,
            datasize_memory: self.datasize_memory,
            datasize_serialized: self.datasize_serialized,
            compression_ratio: self.compression_ratio,
            serialization_time: self.serialization_time,
            deserialization_time: self.deserialization_time,
        }
    }
}

impl Clone for DatasetResult {
    fn clone(&self) -> (copy: DatasetResult)
        ensures
            copy@ == self@,
    {
        DatasetResult {
            dataset: self.dataset.clone(),
            protocol: self.protocol.clone(),
            datasize_memory: self.datasize_memory,
            datasize_serialized: self.datasize_serialized,
            compression_ratio: self.compression_ratio,
            serialization_time: self.serialization_time,
            deserialization_time: self.deserialization_time,
        }
    }
}

impl Default for DatasetResult {
    fn default() -> (result: DatasetResult)
        ensures
            result@ == Record::blank(Seq::empty(), Seq::empty(), 0),
    {
        DatasetResult {
            dataset: String::new(),
            protocol: String::new(),
            datasize_memory: 0,
            datasize_serialized: None,
            compression_ratio: None,
            serialization_time: None,
            deserialization_time: None,
        }
    }
}

/// How far the benchmark of one dataset under one format has come.
#[derive(Debug, Clone, Copy, PartialEq, Eq, Structural)]
pub enum Phase {
    /// Nothing was tried yet.
    Pending,
    /// The dataset was encoded and the encoding measured.
    Encoded,
    /// The encoded bytes were decoded and the decoding measured.
    Decoded,
    /// The record was handed out.
    Recorded,
    /// The format could not encode the dataset.
    Failed,
}

/// What happened to the benchmark of one dataset under one format.
#[derive(Debug, Clone, Copy, PartialEq, Eq, Structural)]
pub enum Event {
    /// The format encoded the dataset into `encoded_size` bytes in `elapsed`.
    EncodeSucceeded { encoded_size: u64, elapsed: Elapsed },
    /// The format could not encode the dataset.
    EncodeFailed,
    /// The format decoded the bytes it had made in `elapsed`.
    DecodeSucceeded { elapsed: Elapsed },
    /// The record was handed out.
    RecordEmitted,
}

/// The benchmark of one dataset under one format, as plain values.
pub ghost struct TrialState {
    pub phase: Phase,
    pub payload_size: u64,
    pub record: Record,
}

impl TrialState {
    /// The state that `event` leads to. An event that cannot happen in a
    /// phase changes nothing.
    pub open spec fn after(self, event: Event) -> TrialState {
        match (self.phase, event) {
            (Phase::Pending, Event::EncodeSucceeded { encoded_size, elapsed }) => TrialState {
                phase: Phase::Encoded,
                record: Record {
                    datasize_serialized: Some(encoded_size),
                    compression_ratio: Some(
                        CompressionRatio { payload_size: self.payload_size, encoded_size },
                    ),
                    serialization_time: Some(elapsed),
                    ..self.record
                },
                ..self
            },
            (Phase::Pending, Event::EncodeFailed) => TrialState { phase: Phase::Failed, ..self },
            (Phase::Encoded, Event::DecodeSucceeded { elapsed }) => TrialState {
                phase: Phase::Decoded,
                record: Record { deserialization_time: Some(elapsed), ..self.record },
                ..self
            },
            (Phase::Encoded, Event::RecordEmitted) => TrialState { phase: Phase::Recorded, ..self },
            (Phase::Decoded, Event::RecordEmitted) => TrialState { phase: Phase::Recorded, ..self },
            _ => self,
        }
    }

    /// Whether the record holds what the phase says was measured, and no more.
    pub open spec fn well_formed(self) -> bool {
        &&& self.record.coherent(self.payload_size)
        &&& match self.phase {
            Phase::Pending => self.record.is_blank(),
            Phase::Failed => self.record.is_blank(),
            Phase::Encoded => self.record.datasize_serialized is Some
                && self.record.deserialization_time is None,
            Phase::Decoded => self.record.datasize_serialized is Some
                && self.record.deserialization_time is Some,
            Phase::Recorded => self.record.datasize_serialized is Some,
        }
    }

    /// Every event leads from a well-formed state to a well-formed state, and
    /// leaves the names and the memory size in the record as they were.
    pub proof fn after_preserves_well_formed(self, event: Event)
        requires
            self.well_formed(),
        ensures
            self.after(event).well_formed(),
            self.after(event).payload_size == self.payload_size,
            self.after(event).record.dataset == self.record.dataset,
            self.after(event).record.protocol == self.record.protocol,
            self.after(event).record.datasize_memory == self.record.datasize_memory,
    {
    }
}

/// The benchmark of one dataset under one format.
pub struct Trial {
    phase: Phase,
    payload_size: u64,
    record: DatasetResult,
}

impl View for Trial {
    type V = TrialState;

    closed spec fn view(&self) -> TrialState {
        TrialState { phase: self.phase, payload_size: self.payload_size, record: self.record@ }
    }
}

impl Trial {
    /// The benchmark of the dataset `dataset`, of the sizes `baseline`, under
    /// the format `protocol`, with nothing tried yet.
    pub fn new(dataset: &str, protocol: &str, baseline: Baseline) -> (trial: Trial)
        ensures
            trial@ == (TrialState {
                phase: Phase::Pending,
                payload_size: baseline.payload_size,
                record: Record::blank(dataset@, protocol@, baseline.memory_size),
            }),
            trial@.well_formed(),
    {
        Trial {
            phase: Phase::Pending,
            payload_size: baseline.payload_size,
            record: DatasetResult {
                dataset: dataset.to_owned(),
                protocol: protocol.to_owned(),
                datasize_memory: baseline.memory_size,
                datasize_serialized: None,
                compression_ratio: None,
                serialization_time: None,
                deserialization_time: None,
            },
        }
    }

    /// How far the benchmark has come.
    pub fn phase(&self) -> (phase: Phase)
        ensures
            phase == self@.phase,
    {
        self.phase
    }

    /// The benchmark after `event`.
    pub fn step(self, event: Event) -> (next: Trial)
        ensures
            next@ == self@.after(event),
            self@.well_formed() ==> next@.well_formed(),
    {
        proof {
            if self@.well_formed() {
                self@.after_preserves_well_formed(event);
            }
        }
        let mut next = self;
        match (next.phase, event) {
            (Phase::Pending, Event::EncodeSucceeded { encoded_size, elapsed }) => {
                next.phase = Phase::Encoded;
                next.record.datasize_serialized = Some(encoded_size);
                next.record.compression_ratio = Some(
                    CompressionRatio { payload_size: next.payload_size, encoded_size },
                );
                next.record.serialization_time = Some(elapsed);
            },
            (Phase::Pending, Event::EncodeFailed) => {
                next.phase = Phase::Failed;
            },
            (Phase::Encoded, Event::DecodeSucceeded { elapsed }) => {
                next.phase = Phase::Decoded;
                next.record.deserialization_time = Some(elapsed);
            },
            (Phase::Encoded, Event::RecordEmitted) => {
                next.phase = Phase::Recorded;
            },
            (Phase::Decoded, Event::RecordEmitted) => {
                next.phase = Phase::Recorded;
            },
            _ => {},
        }
        next
    }

    /// The record of what was measured so far.
    pub fn into_record(self) -> (record: DatasetResult)
        ensures
            record@ == self@.record,
    {
        self.record
    }
}

/// Whether the measurements of `record` are what the format `S` answered for
/// `wire`: an encoded size is the length of bytes that the format handed
/// out, and is absent only where the format reported an error; a decoding
/// time is there only where the format read its own bytes back, and is
/// absent only where the format cannot decode or reported an error.
pub open spec fn measured_by<W, S: Serializer<W>>(record: Record, wire: &W) -> bool {
    match record.datasize_serialized {
        Some(size) => exists|bytes: Vec<u8>|
            #![auto]
            {
                &&& call_ensures(S::serialize, (wire,), Ok(bytes))
                &&& bytes@.len() == size
                &&& decoding_measured_by::<W, S>(record, bytes)
            },
        None => exists|message: String|
            #![auto]
            call_ensures(S::serialize, (wire,), Err(message)),
    }
}

/// Whether the decoding time of `record` is what the format `S` answered for
/// `bytes`: it is there only where the format read the bytes, and is absent
/// only where the format cannot decode or reported an error.
pub open spec fn decoding_measured_by<W, S: Serializer<W>>(record: Record, bytes: Vec<u8>) -> bool {
    match record.deserialization_time {
        Some(_) => exists|read: W| #![auto] call_ensures(S::deserialize, (&bytes,), Ok(read)),
        None => {
            ||| call_ensures(S::can_deserialize, (), false)
            ||| exists|message: String|
                #![auto]
                call_ensures(S::deserialize, (&bytes,), Err(message))
        },
    }
}

/// Takes `wire` through the format `S` and records what that measured: the
/// time to encode and the encoded size and, where the format can decode and
/// does, the time to decode its own bytes. A format that fails leaves its
/// measurements absent.
pub fn evaluate_codec<W, S: Serializer<W>>(
    dataset: &str,
    protocol: &str,
    baseline: Baseline,
    wire: &W,
) -> (record: DatasetResult)
    ensures
        record@.dataset == dataset@,
        record@.protocol == protocol@,
        record@.datasize_memory == baseline.memory_size,
        record@.coherent(baseline.payload_size),
        record@.times_in_range(),
        measured_by::<W, S>(record@, wire),
{
    let mut trial = Trial::new(dataset, protocol, baseline);
    let started = Instant::now();
    let encoded = S::serialize(wire);
    let elapsed = Elapsed::since(&started);
    match encoded {
        Ok(bytes) => {
            trial = trial.step(
                Event::EncodeSucceeded { encoded_size: bytes.len() as u64, elapsed },
            );
            if S::can_deserialize() {
                let started = Instant::now();
                let decoded = S::deserialize(&bytes);
                let elapsed = Elapsed::since(&started);
                match decoded {
                    Ok(read) => {
                        trial = trial.step(Event::DecodeSucceeded { elapsed });
                        assert(call_ensures(S::deserialize, (&bytes,), Ok(read)));
                    },
                    Err(message) => {
                        assert(call_ensures(S::deserialize, (&bytes,), Err(message)));
                    },
                }
            }
            assert(call_ensures(S::serialize, (wire,), Ok(bytes)));
            assert(decoding_measured_by::<W, S>(trial@.record, bytes));
            assert(measured_by::<W, S>(trial@.record, wire));
        },
        Err(message) => {
            trial = trial.step(Event::EncodeFailed);
            assert(call_ensures(S::serialize, (wire,), Err(message)));
        },
    }
    trial = trial.step(Event::RecordEmitted);
    trial.into_record()
}

/// What became of a dataset that was encoded and decoded again.
#[derive(Debug, Clone, Copy, PartialEq, Eq, Structural)]
pub enum RoundTrip {
    /// The decoded data is the data that was encoded: the same variants in
    /// the same shape, the same scalars in the same order.
    Preserved,
    /// The format decoded without an error, and the data is another.
    Altered,
    /// The format reported an error.
    Rejected,
}

/// Judges what a format made of `sent`, from what it handed back after
/// encoding and decoding: the judgement is `Preserved` for that same data
/// and for nothing else, so that no format passes for faithful that changed
/// the data without an error.
pub fn check_round_trip(
    sent: &SerializableData,
    decoded: &Result<SerializableData, String>,
) -> (verdict: RoundTrip)
    ensures
        verdict == (match decoded {
            Ok(data) => if data@ == sent@ {
                RoundTrip::Preserved
            } else {
                RoundTrip::Altered
            },
            Err(_) => RoundTrip::Rejected,
        }),
{
    match decoded {
        Ok(data) => {
            if data.structurally_equal(sent) {
                RoundTrip::Preserved
            } else {
                RoundTrip::Altered
            }
        },
        Err(_) => RoundTrip::Rejected,
    }
}

/// Where a dataset with payload was encoded into at least one byte, its
/// compression ratio is there, and it is a number above zero.
pub proof fn compression_ratio_of_encoded(state: TrialState, encoded_size: u64, elapsed: Elapsed)
    requires
        state.phase == Phase::Pending,
        state.payload_size > 0,
        encoded_size > 0,
    ensures
        state.after(Event::EncodeSucceeded { encoded_size, elapsed }).record.compression_ratio
            matches Some(ratio) && ratio.is_finite() && ratio.is_positive(),
{
}

/// Where a dataset could not be encoded, its compression ratio is absent,
/// and so are its encoded size and its times.
pub proof fn compression_ratio_of_failed(state: TrialState)
    requires
        state.phase == Phase::Pending,
        state.well_formed(),
    ensures
        state.after(Event::EncodeFailed).record.is_blank(),
        state.after(Event::EncodeFailed).after(Event::RecordEmitted).record.is_blank(),
{
}

/// The names of the formats, in the order in which every dataset is taken
/// through them.
pub open spec fn protocol_names() -> Seq<Seq<char>> {
    seq!["JSON"@, "XML"@, "Protobuf"@, "Messagepack"@]
}

/// Whether `records` are the records of the dataset `file`, of the sizes
/// `baseline`: one for each format, in the order of the formats, each
/// coherent in itself.
pub open spec fn records_of_dataset(
    records: Seq<Record>,
    file: Seq<char>,
    baseline: Baseline,
) -> bool {
    &&& records.len() == protocol_names().len()
    &&& forall|i: int|
        0 <= i < records.len() ==> {
            &&& (#[trigger] records[i]).dataset == file
            &&& records[i].protocol == protocol_names()[i]
            &&& records[i].datasize_memory == baseline.memory_size
            &&& records[i].coherent(baseline.payload_size)
            &&& records[i].times_in_range()
        }
}

/// Whether `records` hold, in the order of the formats, what each format
/// answered for `wire`.
pub open spec fn measured_by_all<W>(records: Seq<Record>, wire: &W) -> bool where
    JSONSerializer: Serializer<W>,
    XMLSerializer: Serializer<W>,
    ProtobufSerializer: Serializer<W>,
    MessagepackSerializer: Serializer<W>,
{
    &&& records.len() == 4
    &&& measured_by::<W, JSONSerializer>(records[0], wire)
    &&& measured_by::<W, XMLSerializer>(records[1], wire)
    &&& measured_by::<W, ProtobufSerializer>(records[2], wire)
    &&& measured_by::<W, MessagepackSerializer>(records[3], wire)
}

/// The views of `records`, in order.
pub open spec fn record_views(records: Seq<DatasetResult>) -> Seq<Record> {
    Seq::new(records.len(), |i: int| records[i]@)
}

/// Takes the dataset `file` through every format, in the order JSON, XML,
/// Protobuf, Messagepack, and hands back one record for each. The sizes of
/// the dataset are taken once, from `data`, and shared by the formats, which
/// are given `wire`, the same dataset as they read and write it. A format
/// that fails has its record all the same, with the measurements absent, and
/// does not keep the others from being measured. Nothing is measured, and
/// `None` handed back, when the memory footprint of `data` does not fit in a
/// `usize`.
pub fn evaluate_dataset<W>(file: &str, data: &SerializableData, wire: &W) -> (records: Option<
    Vec<DatasetResult>,
>) where
    JSONSerializer: Serializer<W>,
    XMLSerializer: Serializer<W>,
    ProtobufSerializer: Serializer<W>,
    MessagepackSerializer: Serializer<W>,

    ensures
        match records {
            Some(records) => {
                &&& Baseline::measurable(data@)
                &&& records_of_dataset(record_views(records@), file@, Baseline::of(data@))
                &&& measured_by_all::<W>(record_views(records@), wire)
            },
            None => !Baseline::measurable(data@),
        },
{
    let baseline = match Baseline::measure(data) {
        Some(baseline) => baseline,
        None => {
            return None;
        },
    };
    let mut records: Vec<DatasetResult> = Vec::new();
    records.push(evaluate_codec::<W, JSONSerializer>(file, "JSON", baseline, wire));
    records.push(evaluate_codec::<W, XMLSerializer>(file, "XML", baseline, wire));
    records.push(evaluate_codec::<W, ProtobufSerializer>(file, "Protobuf", baseline, wire));
    records.push(evaluate_codec::<W, MessagepackSerializer>(file, "Messagepack", baseline, wire));
    Some(records)
}

} // verus!
