//! Randomised generation of data from a description of its shape.

use crate::data::SerializableData;
use crate::model::Value;
use rand::distributions::Alphanumeric;
use rand::rngs::OsRng;
use rand::rngs::StdRng;
use rand::Rng;
use rand::SeedableRng;
use vstd::prelude::*;
use vstd::utf8::encode_utf8;
use vstd::utf8::is_ascii_chars;
use vstd::utf8::is_ascii_chars_encode_utf8;

verus! {

/// `rand::rngs::StdRng`: a random number generator, of whose state nothing
/// is known.
#[verifier::external_type_specification]
#[verifier::external_body]
pub struct ExStdRng(rand::rngs::StdRng);

/// `rand::SeedableRng::seed_from_u64` for `StdRng`: a generator whose stream
/// is fixed by `seed`. Nothing is claimed of the stream.
#[verifier::external_body]
fn seeded_generator(seed: u64) -> StdRng {
    StdRng::seed_from_u64(seed)
}

/// `rand::SeedableRng::from_rng` for `StdRng`, on `rand::rngs::OsRng`: a
/// generator seeded by the operating system, or nothing where the operating
/// system reported an error. Nothing is claimed of which it is, nor of the
/// stream.
#[verifier::external_body]
fn fresh_generator() -> Option<StdRng> {
    StdRng::from_rng(OsRng).ok()
}

/// `rand::Rng::gen` for `bool`: either value may come.
#[verifier::external_body]
fn draw_bool(rng: &mut StdRng) -> bool {
    rng.gen()
}

/// `rand::Rng::gen` for `i32`: any value may come.
#[verifier::external_body]
fn draw_i32(rng: &mut StdRng) -> i32 {
    rng.gen()
}

/// `rand::Rng::gen` for `i64`: any value may come.
#[verifier::external_body]
fn draw_i64(rng: &mut StdRng) -> i64 {
    rng.gen()
}

/// `rand::Rng::sample` of `rand::distributions::Alphanumeric`: one of the
/// ASCII letters and digits.
#[verifier::external_body]
fn draw_alphanumeric(rng: &mut StdRng) -> (byte: u8)
    ensures
        is_alphanumeric(byte as char),
{
    rng.sample(Alphanumeric)
}

/// `rand::Rng::gen_range` over `0..bound`: a value of that range. The range
/// must not be empty.
#[verifier::external_body]
fn draw_below(rng: &mut StdRng, bound: usize) -> (index: usize)
    requires
        bound > 0,
    ensures
        index < bound,
{
    rng.gen_range(0..bound)
}

/// Whether `c` is an ASCII letter or digit.
pub open spec fn is_alphanumeric(c: char) -> bool {
    ||| 'A' <= c <= 'Z'
    ||| 'a' <= c <= 'z'
    ||| '0' <= c <= '9'
}

/// Whether `text` has `length` characters, all of them ASCII letters or digits.
pub open spec fn is_alphanumeric_text(text: Seq<char>, length: nat) -> bool {
    &&& text.len() == length
    &&& forall|i: int| 0 <= i < text.len() ==> is_alphanumeric(#[trigger] text[i])
}

/// A text of ASCII letters and digits takes one byte for each character.
pub proof fn alphanumeric_text_is_compact(text: Seq<char>, length: nat)
    requires
        is_alphanumeric_text(text, length),
    ensures
        encode_utf8(text).len() == length,
{
    assert(is_ascii_chars(text));
    is_ascii_chars_encode_utf8(text);
}

/// A stream of random numbers that generation draws from.
pub struct RandomSource {
    rng: StdRng,
}

impl RandomSource {
    /// A source whose stream is fixed by `seed`: two sources made from one
    /// seed give the same data.
    pub fn from_seed(seed: u64) -> RandomSource {
        RandomSource { rng: seeded_generator(seed) }
    }

    /// A source seeded by the operating system; `None` where the operating
    /// system has no entropy to give.
    pub fn from_entropy() -> Option<RandomSource> {
        match fresh_generator() {
            Some(rng) => Some(RandomSource { rng }),
            None => None,
        }
    }

    /// A text of `length` random ASCII letters and digits.
    fn alphanumeric_text(&mut self, length: usize) -> (text: String)
        ensures
            is_alphanumeric_text(text@, length as nat),
    {
        let mut text = String::new();
        let mut i: usize = 0;
        while i < length
            invariant
                i <= length,
                is_alphanumeric_text(text@, i as nat),
            decreases length - i,
        {
            let byte = draw_alphanumeric(&mut self.rng);
            text.push(byte as char);
            i = i + 1;
        }
        text
    }
}

/// Why data could not be generated from a description.
#[derive(Debug, Clone, Copy, PartialEq, Eq, Structural)]
pub enum GenerationError {
    /// A choice among no alternatives was asked for.
    EmptyChoice,
}

/// A boolean leaf holding a random value.
pub fn random_boolean(source: &mut RandomSource) -> (data: SerializableData)
    ensures
        data@ is Boolean,
{
    SerializableData::Boolean(draw_bool(&mut source.rng))
}

/// A 32-bit integer leaf holding a random value.
pub fn random_int(source: &mut RandomSource) -> (data: SerializableData)
    ensures
        data@ is Integer,
{
    SerializableData::Integer(draw_i32(&mut source.rng))
}

/// A 64-bit integer leaf holding a random value.
pub fn random_bigint(source: &mut RandomSource) -> (data: SerializableData)
    ensures
        data@ is BigInteger,
{
    SerializableData::BigInteger(draw_i64(&mut source.rng))
}

/// A text leaf of `length` random ASCII letters and digits, which are its
/// payload.
pub fn random_string(length: usize, source: &mut RandomSource) -> (data: SerializableData)
    ensures
        data@ matches Value::StringLiteral(text) && is_alphanumeric_text(text, length as nat),
        data@.payload_size() == length,
{
    let text = source.alphanumeric_text(length);
    proof {
        alphanumeric_text_is_compact(text@, length as nat);
    }
    SerializableData::StringLiteral(text)
}

/// A description of the shape of data to generate.
pub enum Generator {
    /// A boolean leaf.
    Boolean,
    /// A 32-bit integer leaf.
    Integer,
    /// A 64-bit integer leaf.
    BigInteger,
    /// A text leaf of so many ASCII letters and digits.
    StringLiteral(usize),
    /// A pair whose key has so many ASCII letters and digits, around a child
    /// of the given shape.
    KeyValuePair(usize, Box<Generator>),
    /// A list of so many elements, each of the given shape.
    List(usize, Box<Generator>),
    /// A list with one element for each of the given shapes, in their order.
    Sequence(Vec<Generator>),
    /// One of the given shapes, picked uniformly at random each time.
    Choice(Vec<Generator>),
}

impl Generator {
    /// Whether data can be generated from the description: no choice in it
    /// is a choice among nothing.
    pub open spec fn valid(&self) -> bool
        decreases self,
    {
        match self {
            Generator::KeyValuePair(_, contents) => contents.valid(),
            Generator::List(_, contents) => contents.valid(),
            Generator::Sequence(contents) => Self::all_valid(contents@),
            Generator::Choice(choices) => choices@.len() > 0 && Self::all_valid(choices@),
            _ => true,
        }
    }

    /// Whether each of `items` is valid.
    pub open spec fn all_valid(items: Seq<Generator>) -> bool
        decreases items,
    {
        forall|i: int| 0 <= i < items.len() ==> (#[trigger] items[i]).valid()
    }

    /// Whether `value` has the shape that the description asks for.
    pub open spec fn admits(&self, value: Value) -> bool
        decreases self,
    {
        match self {
            Generator::Boolean => value is Boolean,
            Generator::Integer => value is Integer,
            Generator::BigInteger => value is BigInteger,
            Generator::StringLiteral(length) => {
                &&& value matches Value::StringLiteral(text)
                &&& is_alphanumeric_text(text, *length as nat)
            },
            Generator::KeyValuePair(keylength, contents) => {
                &&& value matches Value::KeyValuePair(key, child)
                &&& is_alphanumeric_text(key, *keylength as nat)
                &&& contents.admits(*child)
            },
            Generator::List(length, contents) => {
                &&& value matches Value::List(items)
                &&& items.len() == *length
                &&& forall|i: int| 0 <= i < items.len() ==> contents.admits(#[trigger] items[i])
            },
            Generator::Sequence(contents) => {
                &&& value matches Value::List(items)
                &&& Self::admit_each(contents@, items)
            },
            Generator::Choice(choices) => Self::admits_any(choices@, value),
        }
    }

    /// Whether `values` has one value for each of `items`, of its shape.
    pub open spec fn admit_each(items: Seq<Generator>, values: Seq<Value>) -> bool
        decreases items,
    {
        &&& values.len() == items.len()
        &&& forall|i: int| 0 <= i < items.len() ==> (#[trigger] items[i]).admits(values[i])
    }

    /// Whether `value` has the shape of one of `items`.
    pub open spec fn admits_any(items: Seq<Generator>, value: Value) -> bool
        decreases items,
    {
        exists|i: int| 0 <= i < items.len() && (#[trigger] items[i]).admits(value)
    }

    /// Whether data can be generated from the description.
    pub fn is_valid(&self) -> (ok: bool)
        ensures
            ok == self.valid(),
        decreases self,
    {
        match self {
            Generator::KeyValuePair(_, contents) => contents.is_valid(),
            Generator::List(_, contents) => contents.is_valid(),
            Generator::Sequence(contents) => Self::are_valid(contents),
            Generator::Choice(choices) => choices.len() > 0 && Self::are_valid(choices),
            _ => true,
        }
    }

    /// Whether data can be generated from each of `items`.
    pub fn are_valid(items: &Vec<Generator>) -> (ok: bool)
        ensures
            ok == Self::all_valid(items@),
        decreases items,
    {
        let mut i: usize = 0;
        while i < items.len()
            invariant
                i <= items.len(),
                forall|j: int| 0 <= j < i ==> (#[trigger] items@[j]).valid(),
            decreases items.len() - i,
        {
            if !items[i].is_valid() {
                return false;
            }
            i = i + 1;
        }
        true
    }

    /// Data of the described shape, drawn from `source`; an error when the
    /// description is not valid.
    pub fn generate(&self, source: &mut RandomSource) -> (out: Result<
        SerializableData,
        GenerationError,
    >)
        ensures
            match out {
                Ok(data) => self.valid() && self.admits(data@),
                Err(error) => !self.valid() && error == GenerationError::EmptyChoice,
            },
    {
        if self.is_valid() {
            Ok(self.produce(source))
        } else {
            Err(GenerationError::EmptyChoice)
        }
    }

    /// Data of the described shape, drawn from `source`.
    fn produce(&self, source: &mut RandomSource) -> (data: SerializableData)
        requires
            self.valid(),
        ensures
            self.admits(data@),
        decreases self, 0nat,
    {
        match self {
            Generator::Boolean => random_boolean(source),
            Generator::Integer => random_int(source),
            Generator::BigInteger => random_bigint(source),
            Generator::StringLiteral(length) => random_string(*length, source),
            Generator::KeyValuePair(keylength, contents) => {
                let key = source.alphanumeric_text(*keylength);
                let value = contents.produce(source);
                SerializableData::KeyValuePair(key, Box::new(value))
            },
            Generator::List(length, contents) => {
                let items = contents.produce_many(*length, source);
                assert(SerializableData::models(items@).len() == *length);
                SerializableData::List(items)
            },
            Generator::Sequence(contents) => SerializableData::List(
                Self::produce_each(contents, source),
            ),
            Generator::Choice(choices) => Self::produce_any(choices, source),
        }
    }

    /// `count` values of the described shape, drawn from `source`.
    fn produce_many(&self, count: usize, source: &mut RandomSource) -> (items: Vec<
        SerializableData,
    >)
        requires
            self.valid(),
        ensures
            items@.len() == count,
            forall|i: int|
                0 <= i < count ==> self.admits(#[trigger] SerializableData::models(items@)[i]),
        decreases self, 1nat,
    {
        let mut items: Vec<SerializableData> = Vec::new();
        let mut i: usize = 0;
        while i < count
            invariant
                i <= count,
                items.len() == i,
                self.valid(),
                forall|j: int| 0 <= j < i ==> self.admits(#[trigger] items@[j]@),
            decreases count - i,
        {
            items.push(self.produce(source));
            i = i + 1;
        }
        assert forall|i: int| 0 <= i < count implies self.admits(
            #[trigger] SerializableData::models(items@)[i],
        ) by {
            assert(self.admits(items@[i]@));
        }
        items
    }

    /// One value for each of `shapes`, of its shape, drawn from `source`.
    fn produce_each(shapes: &Vec<Generator>, source: &mut RandomSource) -> (items: Vec<
        SerializableData,
    >)
        requires
            Self::all_valid(shapes@),
        ensures
            Self::admit_each(shapes@, SerializableData::models(items@)),
        decreases shapes,
    {
        let mut items: Vec<SerializableData> = Vec::new();
        let mut i: usize = 0;
        while i < shapes.len()
            invariant
                i <= shapes.len(),
                items.len() == i,
                Self::all_valid(shapes@),
                forall|j: int| 0 <= j < i ==> (#[trigger] shapes@[j]).admits(items@[j]@),
            decreases shapes.len() - i,
        {
            assert(shapes@[i as int].valid());
            items.push(shapes[i].produce(source));
            i = i + 1;
        }
        assert forall|i: int| 0 <= i < shapes@.len() implies (#[trigger] shapes@[i]).admits(
            SerializableData::models(items@)[i],
        ) by {
            assert(shapes@[i].admits(items@[i]@));
        }
        items
    }

    /// A value of the shape of one of `shapes`, picked uniformly at random.
    fn produce_any(shapes: &Vec<Generator>, source: &mut RandomSource) -> (data:
        SerializableData)
        requires
            shapes@.len() > 0,
            Self::all_valid(shapes@),
        ensures
            Self::admits_any(shapes@, data@),
        decreases shapes,
    {
        let picked = draw_below(&mut source.rng, shapes.len());
        assert(shapes@[picked as int].valid());
        shapes[picked].produce(source)
    }
}

/// A list of `length` elements, each generated from `contents`; an error when
/// `contents` is not valid.
pub fn random_list(length: usize, contents: &Generator, source: &mut RandomSource) -> (out: Result<
    SerializableData,
    GenerationError,
>)
    ensures
        match out {
            Ok(data) => {
                &&& contents.valid()
                &&& data@ matches Value::List(items)
                &&& items.len() == length
                &&& forall|i: int| 0 <= i < items.len() ==> contents.admits(#[trigger] items[i])
            },
            Err(error) => !contents.valid() && error == GenerationError::EmptyChoice,
        },
{
    if contents.is_valid() {
        let items = contents.produce_many(length, source);
        assert(SerializableData::models(items@).len() == length);
        Ok(SerializableData::List(items))
    } else {
        Err(GenerationError::EmptyChoice)
    }
}

/// A list with one element generated from each of `contents`, in their
/// order; an error when one of them is not valid.
pub fn list(contents: &Vec<Generator>, source: &mut RandomSource) -> (out: Result<
    SerializableData,
    GenerationError,
>)
    ensures
        match out {
            Ok(data) => {
                &&& Generator::all_valid(contents@)
                &&& data@ matches Value::List(items)
                &&& Generator::admit_each(contents@, items)
            },
            Err(error) => !Generator::all_valid(contents@) && error
                == GenerationError::EmptyChoice,
        },
{
    if Generator::are_valid(contents) {
        Ok(SerializableData::List(Generator::produce_each(contents, source)))
    } else {
        Err(GenerationError::EmptyChoice)
    }
}

/// A pair whose key is `keylength` random ASCII letters and digits and whose
/// value is generated from `contents`; an error when `contents` is not valid.
pub fn random_kvpair(keylength: usize, contents: &Generator, source: &mut RandomSource) -> (out:
    Result<SerializableData, GenerationError>)
    ensures
        match out {
            Ok(data) => {
                &&& contents.valid()
                &&& data@ matches Value::KeyValuePair(key, child)
                &&& is_alphanumeric_text(key, keylength as nat)
                &&& contents.admits(*child)
            },
            Err(error) => !contents.valid() && error == GenerationError::EmptyChoice,
        },
{
    if contents.is_valid() {
        let key = source.alphanumeric_text(keylength);
        let value = contents.produce(source);
        Ok(SerializableData::KeyValuePair(key, Box::new(value)))
    } else {
        Err(GenerationError::EmptyChoice)
    }
}

/// Data generated from one of `choices`, picked uniformly at random; an error
/// when there is none to pick from or one of them is not valid.
pub fn random_choice(choices: &Vec<Generator>, source: &mut RandomSource) -> (out: Result<
    SerializableData,
    GenerationError,
>)
    ensures
        match out {
            Ok(data) => {
                &&& choices@.len() > 0
                &&& Generator::all_valid(choices@)
                &&& Generator::admits_any(choices@, data@)
            },
            Err(error) => {
                &&& choices@.len() == 0 || !Generator::all_valid(choices@)
                &&& error == GenerationError::EmptyChoice
            },
        },
{
    if choices.len() > 0 && Generator::are_valid(choices) {
        Ok(Generator::produce_any(choices, source))
    } else {
        Err(GenerationError::EmptyChoice)
    }
}

} // verus!
