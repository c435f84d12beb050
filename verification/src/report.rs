//! The report: the description of the host and the records of all datasets,
//! and sizes written out for a reader.

use crate::benchmark::evaluate_dataset;
use crate::benchmark::measured_by_all;
use crate::benchmark::protocol_names;
use crate::benchmark::record_views;
use crate::benchmark::records_of_dataset;
use crate::benchmark::Baseline;
use crate::benchmark::DatasetResult;
use crate::benchmark::Record;
use crate::data::SerializableData;
use crate::serializer::Serializer;
use crate::serializers::JSONSerializer;
use crate::serializers::MessagepackSerializer;
use crate::serializers::ProtobufSerializer;
use crate::serializers::XMLSerializer;
use crate::text::decimal;
use crate::text::digit;
use crate::text::push_decimal;
use crate::text::push_digit;
use vstd::prelude::*;
use vstd::string::StringExecFns;

verus! {

/// The description of a host, as plain values.
pub ghost struct Host {
    pub cpu: Seq<char>,
    pub cores: u32,
    pub memory: u64,
    pub os: Seq<char>,
}

/// The description of the host that the benchmark ran on.
#[derive(Debug)]
pub struct SysInfo {
    /// The name of the processor.
    pub cpu: String,
    /// The number of physical cores.
    pub cores: u32,
    /// The size of the memory, in bytes.
    pub memory: u64,
    /// The name of the operating system.
    pub os: String,
}

impl View for SysInfo {
    type V = Host;

    open spec fn view(&self) -> Host {
        Host { cpu: self.cpu@, cores: self.cores, memory: self.memory, os: self.os@ }
    }
}

impl SysInfo {
    /// The description of a host from what could be read of it: a processor
    /// or system without a name is `"Unknown CPU"` or `"Unknown OS"`, an
    /// unknown number of cores is zero, and a number of cores beyond 32 bits
    /// keeps its low 32 bits.
    pub fn from_readings(
        cpu: Option<String>,
        cores: Option<usize>,
        memory: u64,
        os: Option<String>,
    ) -> (info: SysInfo)
        ensures
            info@.cpu == (match cpu {
                Some(name) => name@,
                None => "Unknown CPU"@,
            }),
            info@.cores == (match cores {
                Some(count) => count as u32,
                None => 0u32,
            }),
            info@.memory == memory,
            info@.os == (match os {
                Some(name) => name@,
                None => "Unknown OS"@,
            }),
    {
        SysInfo {
            cpu: match cpu {
                Some(name) => name,
                None => "Unknown CPU".to_owned(),
            },
            cores: match cores {
                Some(count) => #[verifier::truncate]
                (count as u32),
                None => 0,
            },
            memory,
            os: match os {
                Some(name) => name,
                None => "Unknown OS".to_owned(),
            },
        }
    }
}

/// The description of the host, under its name in the report.
#[derive(Debug)]
pub struct SysInfoWrapper {
    pub system_info: SysInfo,
}

/// One entry of the report, as plain values.
pub ghost enum Entry {
    SystemInfo(Host),
    ResultSet(Record),
}

/// One entry of the report: the description of the host, or what one dataset
/// measured under one format.
#[derive(Debug)]
pub enum ResultData {
    SystemInfo(SysInfoWrapper),
    ResultSet(DatasetResult),
}

impl View for ResultData {
    type V = Entry;

    open spec fn view(&self) -> Entry {
        match self {
            ResultData::SystemInfo(wrapper) => Entry::SystemInfo(wrapper.system_info@),
            ResultData::ResultSet(record) => Entry::ResultSet(record@),
        }
    }
}

/// Whether `records` come in the order of the benchmark: first by dataset,
/// then by format. They fall into groups of one record for each format, in
/// the order of the formats, and the records of a group are of one dataset.
pub open spec fn in_benchmark_order(records: Seq<Record>) -> bool {
    let formats = protocol_names().len() as int;
    &&& records.len() % (formats as nat) == 0
    &&& forall|k: int|
        0 <= k < records.len() ==> {
            &&& (#[trigger] records[k]).protocol == protocol_names()[k % formats]
            &&& records[k].dataset == records[k - k % formats].dataset
        }
}

/// Records in the order of the benchmark stay in it when the records of one
/// more dataset come behind them.
pub proof fn order_is_kept(
    before: Seq<Record>,
    fresh: Seq<Record>,
    file: Seq<char>,
    baseline: Baseline,
)
    requires
        in_benchmark_order(before),
        records_of_dataset(fresh, file, baseline),
    ensures
        in_benchmark_order(before + fresh),
{
    let after = before + fresh;
    assert(protocol_names().len() == 4);
    assert(before.len() % 4 == 0);
    assert forall|k: int| 0 <= k < after.len() implies {
        &&& (#[trigger] after[k]).protocol == protocol_names()[k % 4]
        &&& after[k].dataset == after[k - k % 4].dataset
    } by {
        if k >= before.len() {
            let j = k - before.len();
            assert(k % 4 == j % 4);
            assert(after[k] == fresh[j]);
            assert(after[k - k % 4] == fresh[j - j % 4]);
        } else {
            assert(after[k] == before[k]);
            assert(after[k - k % 4] == before[k - k % 4]);
        }
    }
}

/// The records of the datasets benchmarked so far.
pub struct Report {
    records: Vec<DatasetResult>,
}

impl View for Report {
    type V = Seq<Record>;

    closed spec fn view(&self) -> Seq<Record> {
        record_views(self.records@)
    }
}

impl Report {
    #[verifier::type_invariant]
    spec fn ordered(&self) -> bool {
        in_benchmark_order(record_views(self.records@))
    }

    /// A report without records.
    pub fn new() -> (report: Report)
        ensures
            report@ == Seq::<Record>::empty(),
            in_benchmark_order(report@),
    {
        let report = Report { records: Vec::new() };
        assert(report@ =~= Seq::<Record>::empty());
        report
    }

    /// The number of records in the report. However the report came about,
    /// its records are in the order of the benchmark.
    pub fn len(&self) -> (count: usize)
        ensures
            count == self@.len(),
            in_benchmark_order(self@),
    {
        proof {
            use_type_invariant(self);
        }
        self.records.len()
    }

    /// Takes the dataset `file` through every format and adds its records,
    /// in the order of the formats, behind those that are there. The sizes
    /// of the dataset are taken from `data`; the formats are given `wire`,
    /// the same dataset as they read and write it. When the memory footprint
    /// of `data` does not fit in a `usize`, nothing is measured and the
    /// report comes back as it was, as an error.
    pub fn evaluate<W>(self, file: &str, data: &SerializableData, wire: &W) -> (out: Result<
        Report,
        Report,
    >) where
        JSONSerializer: Serializer<W>,
        XMLSerializer: Serializer<W>,
        ProtobufSerializer: Serializer<W>,
        MessagepackSerializer: Serializer<W>,

        ensures
            match out {
                Ok(report) => {
                    &&& Baseline::measurable(data@)
                    &&& report@.len() == self@.len() + protocol_names().len()
                    &&& report@.subrange(0, self@.len() as int) == self@
                    &&& records_of_dataset(
                        report@.subrange(self@.len() as int, report@.len() as int),
                        file@,
                        Baseline::of(data@),
                    )
                    &&& measured_by_all::<W>(
                        report@.subrange(self@.len() as int, report@.len() as int),
                        wire,
                    )
                    &&& in_benchmark_order(report@)
                },
                Err(report) => {
                    &&& !Baseline::measurable(data@)
                    &&& report@ == self@
                    &&& in_benchmark_order(report@)
                },
            },
    {
        proof {
            use_type_invariant(&self);
        }
        let ghost before = self@;
        match evaluate_dataset::<W>(file, data, wire) {
            Some(added) => {
                let mut added = added;
                let mut records = self.records;
                let ghost fresh = record_views(added@);
                records.append(&mut added);
                proof {
                    let after = record_views(records@);
                    assert(after =~= before + fresh);
                    assert(after.subrange(0, before.len() as int) =~= before);
                    assert(after.subrange(before.len() as int, after.len() as int) =~= fresh);
                    order_is_kept(before, fresh, file@, Baseline::of(data@));
                }
                Ok(Report { records })
            },
            None => Err(self),
        }
    }

    /// The report in full: the description of the host first, then the
    /// records in the order in which they were measured.
    pub fn finish(self, system_info: SysInfo) -> (entries: Vec<ResultData>)
        ensures
            entries@.len() == self@.len() + 1,
            entries@[0]@ == Entry::SystemInfo(system_info@),
            forall|k: int|
                0 <= k < self@.len() ==> (#[trigger] entries@[k + 1])@ == Entry::ResultSet(
                    self@[k],
                ),
            in_benchmark_order(self@),
    {
        proof {
            use_type_invariant(&self);
        }
        let ghost records = self@;
        let measured = self.records;
        let mut entries: Vec<ResultData> = Vec::new();
        entries.push(ResultData::SystemInfo(SysInfoWrapper { system_info }));
        let mut k: usize = 0;
        while k < measured.len()
            invariant
                k <= measured.len(),
                entries.len() == k + 1,
                entries@[0]@ == Entry::SystemInfo(system_info@),
                records == record_views(measured@),
                forall|j: int|
                    0 <= j < k ==> (#[trigger] entries@[j + 1])@ == Entry::ResultSet(records[j]),
            decreases measured.len() - k,
        {
            entries.push(ResultData::ResultSet(measured[k].clone()));
            k = k + 1;
        }
        entries
    }
}

/// The number of bytes in a kilobyte.
pub const KB: u64 = 1024;

/// The number of bytes in a megabyte.
pub const MB: u64 = 1_048_576;

/// The number of bytes in a gigabyte.
pub const GB: u64 = 1_073_741_824;

/// The number of bytes in a terabyte.
pub const TB: u64 = 1_099_511_627_776;

/// The first whole number that double precision does not hold exactly
/// together with its predecessor: two to the power of 53.
pub const DOUBLE_PRECISION_LIMIT: u64 = 0x20_0000_0000_0000;

/// `n` divided by `unit` and rounded to the nearest whole number, a tie going
/// to the even one.
pub open spec fn round_half_even(n: nat, unit: nat) -> nat
    recommends
        unit > 0,
{
    let quotient = n / unit;
    let rest = n % unit;
    if 2 * rest > unit || (2 * rest == unit && quotient % 2 == 1) {
        quotient + 1
    } else {
        quotient
    }
}

/// The distance between neighbouring numbers of double precision at `n`.
pub open spec fn double_spacing(n: nat) -> nat
    decreases n,
{
    if n < DOUBLE_PRECISION_LIMIT {
        1
    } else {
        2 * double_spacing(n / 2)
    }
}

/// The number of double precision nearest to `n`, a tie going to the one
/// with the even significand.
pub open spec fn as_double(n: nat) -> nat {
    round_half_even(n, double_spacing(n)) * double_spacing(n)
}

/// `bytes` in hundredths of `unit`, as division in double precision and
/// rounding to two decimals give them.
pub open spec fn hundredths(bytes: nat, unit: nat) -> nat {
    round_half_even(as_double(bytes) * 100, unit)
}

/// `h` hundredths written out with two decimals.
pub open spec fn two_decimals(h: nat) -> Seq<char> {
    decimal(h / 100) + seq!['.', digit(h / 10 % 10), digit(h % 10)]
}

/// A size of `bytes` bytes written out for a reader: in the largest of the
/// units TB, GB, MB and KB that it reaches, with two decimals, or in bytes.
pub open spec fn size_text(bytes: nat) -> Seq<char> {
    if bytes >= TB {
        two_decimals(hundredths(bytes, TB as nat)) + " TB"@
    } else if bytes >= GB {
        two_decimals(hundredths(bytes, GB as nat)) + " GB"@
    } else if bytes >= MB {
        two_decimals(hundredths(bytes, MB as nat)) + " MB"@
    } else if bytes >= KB {
        two_decimals(hundredths(bytes, KB as nat)) + " KB"@
    } else {
        decimal(bytes) + " bytes"@
    }
}

/// `n` divided by `unit` and rounded to the nearest whole number, a tie going
/// to the even one.
fn rounded_quotient(n: u128, unit: u128) -> (rounded: u128)
    requires
        unit > 0,
        2 * unit <= u128::MAX,
        n < u128::MAX,
    ensures
        rounded == round_half_even(n as nat, unit as nat),
        rounded * unit <= n + unit,
{
    let quotient = n / unit;
    let rest = n % unit;
    assert(quotient * unit + rest == n) by (nonlinear_arith)
        requires
            quotient == n / unit,
            rest == n % unit,
            unit > 0,
    ;
    assert((quotient + 1) * unit == quotient * unit + unit) by (nonlinear_arith);
    assert(quotient <= n) by (nonlinear_arith)
        requires
            quotient * unit + rest == n,
            unit > 0,
    ;
    if 2 * rest > unit || (2 * rest == unit && quotient % 2 == 1) {
        quotient + 1
    } else {
        quotient
    }
}

/// The distance between neighbouring numbers of double precision at `n`.
fn spacing_at(n: u64) -> (spacing: u64)
    ensures
        spacing == double_spacing(n as nat),
        1 <= spacing < 4096,
{
    let mut rest: u64 = n;
    let mut spacing: u64 = 1;
    while rest >= DOUBLE_PRECISION_LIMIT
        invariant
            double_spacing(n as nat) == spacing * double_spacing(rest as nat),
            1 <= spacing < 4096,
            spacing * rest <= n,
        decreases rest,
    {
        proof {
            assert(spacing < 2048) by (nonlinear_arith)
                requires
                    spacing * rest <= n,
                    rest >= 0x20_0000_0000_0000,
                    n <= 0xffff_ffff_ffff_ffff,
            ;
            assert((spacing * 2) * (rest / 2) <= spacing * rest) by (nonlinear_arith);
            assert(spacing * (2 * double_spacing((rest / 2) as nat)) == (spacing * 2)
                * double_spacing((rest / 2) as nat)) by (nonlinear_arith);
        }
        rest = rest / 2;
        spacing = spacing * 2;
    }
    assert(spacing * 1 == spacing);
    spacing
}

/// `bytes` in hundredths of `unit`.
fn hundredths_of(bytes: u64, unit: u64) -> (h: u64)
    requires
        unit == KB || unit == MB || unit == GB || unit == TB,
    ensures
        h == hundredths(bytes as nat, unit as nat),
{
    let spacing = spacing_at(bytes);
    let nearest: u128 = rounded_quotient(bytes as u128, spacing as u128) * (spacing as u128);
    let h = rounded_quotient(nearest * 100, unit as u128);
    assert(h * unit <= nearest * 100 + unit);
    assert(h <= u64::MAX) by (nonlinear_arith)
        requires
            h * unit <= nearest * 100 + unit,
            nearest <= 0x1_0000_0000_0000_1000,
            unit >= 1024,
    ;
    h as u64
}

/// Appends `h` hundredths, written out with two decimals, to `text`.
fn push_two_decimals(text: &mut String, h: u64)
    ensures
        final(text)@ == old(text)@ + two_decimals(h as nat),
{
    push_decimal(text, h / 100);
    text.push('.');
    push_digit(text, (h / 10 % 10) as u8);
    push_digit(text, (h % 10) as u8);
    assert(final(text)@ =~= old(text)@ + two_decimals(h as nat));
}

/// A size of `bytes` bytes written out for a reader: in the largest of the
/// units TB, GB, MB and KB that it reaches, with two decimals, or in bytes.
pub fn format_size(bytes: usize) -> (text: String)
    ensures
        text@ == size_text(bytes as nat),
{
    let bytes: u64 = bytes as u64;
    let mut text = String::new();
    if bytes >= TB {
        push_two_decimals(&mut text, hundredths_of(bytes, TB));
        text.append(" TB");
    } else if bytes >= GB {
        push_two_decimals(&mut text, hundredths_of(bytes, GB));
        text.append(" GB");
    } else if bytes >= MB {
        push_two_decimals(&mut text, hundredths_of(bytes, MB));
        text.append(" MB");
    } else if bytes >= KB {
        push_two_decimals(&mut text, hundredths_of(bytes, KB));
        text.append(" KB");
    } else {
        push_decimal(&mut text, bytes);
        text.append(" bytes");
    }
    assert(text@ =~= size_text(bytes as nat));
    text
}

} // verus!
