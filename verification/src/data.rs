//! Generated data and the structural metrics computed over it.

use crate::model::Value;
use vstd::prelude::*;

verus! {

/// Arbitrary generated data.
///
/// `Float` and `BigFloat` carry the IEEE 754 bit pattern of the number, so
/// that two values are the same exactly when they hold the same bits.
#[derive(Debug)]
pub enum SerializableData {
    Boolean(bool),
    Integer(i32),
    BigInteger(i64),
    Float(u32),
    BigFloat(u64),
    StringLiteral(String),
    KeyValuePair(String, Box<SerializableData>),
    List(Vec<SerializableData>),
}

/// What one node costs in memory on top of its payload: the size of a
/// [`SerializableData`] itself.
pub open spec fn node_overhead() -> nat {
    vstd::layout::size_of::<SerializableData>()
}

impl SerializableData {
    /// The tree that this value stands for.
    pub open spec fn model(&self) -> Value
        decreases self,
    {
        match self {
            SerializableData::Boolean(b) => Value::Boolean(*b),
            SerializableData::Integer(n) => Value::Integer(*n),
            SerializableData::BigInteger(n) => Value::BigInteger(*n),
            SerializableData::Float(bits) => Value::Float(*bits),
            SerializableData::BigFloat(bits) => Value::BigFloat(*bits),
            SerializableData::StringLiteral(text) => Value::StringLiteral(text@),
            SerializableData::KeyValuePair(key, value) => Value::KeyValuePair(
                key@,
                Box::new(value.model()),
            ),
            SerializableData::List(items) => Value::List(Self::models(items@)),
        }
    }

    /// The trees that the elements of `items` stand for, in order.
    pub open spec fn models(items: Seq<SerializableData>) -> Seq<Value>
        decreases items,
    {
        Seq::new(
            items.len(),
            |i: int|
                if 0 <= i < items.len() {
                    items[i].model()
                } else {
                    arbitrary()
                },
        )
    }
}

impl View for SerializableData {
    type V = Value;

    open spec fn view(&self) -> Value {
        self.model()
    }
}

impl SerializableData {
    /// Theoretical size of the payload, without the bookkeeping that lengths,
    /// tags and pointers need; `None` when it does not fit in a `usize`.
    pub fn checked_payload_size(&self) -> (size: Option<usize>)
        ensures
            match size {
                Some(n) => n == self@.payload_size(),
                None => self@.payload_size() > usize::MAX,
            },
        decreases self,
    {
        match self {
            SerializableData::Boolean(_) => Some(1),
            SerializableData::Integer(_) => Some(4),
            SerializableData::BigInteger(_) => Some(8),
            SerializableData::Float(_) => Some(4),
            SerializableData::BigFloat(_) => Some(8),
            SerializableData::StringLiteral(literal) => Some(literal.as_str().as_bytes().len()),
            SerializableData::KeyValuePair(key, value) => {
                match value.checked_payload_size() {
                    Some(inner) => key.as_str().as_bytes().len().checked_add(inner),
                    None => None,
                }
            },
            SerializableData::List(items) => Self::checked_payload_sum(items),
        }
    }

    /// The payload of all of `items`, `None` when it does not fit in a `usize`.
    fn checked_payload_sum(items: &Vec<SerializableData>) -> (size: Option<usize>)
        ensures
            match size {
                Some(n) => n == Value::payload_prefix(Self::models(items@), items@.len()),
                None => Value::payload_prefix(Self::models(items@), items@.len()) > usize::MAX,
            },
        decreases items,
    {
        let ghost children = Self::models(items@);
        let mut total: usize = 0;
        let mut i: usize = 0;
        while i < items.len()
            invariant
                i <= items.len(),
                children == Self::models(items@),
                total == Value::payload_prefix(children, i as nat),
            decreases items.len() - i,
        {
            proof {
                Value::payload_prefix_grows(children, (i + 1) as nat, children.len());
            }
            let step = match items[i].checked_payload_size() {
                Some(inner) => total.checked_add(inner),
                None => None,
            };
            match step {
                Some(sum) => {
                    total = sum;
                },
                None => {
                    return None;
                },
            }
            i = i + 1;
        }
        Some(total)
    }

    /// Theoretical size of the payload, without the bookkeeping that lengths,
    /// tags and pointers need.
    pub fn payload_size(&self) -> (size: usize)
        requires
            self@.payload_size() <= usize::MAX,
        ensures
            size == self@.payload_size(),
    {
        self.checked_payload_size().unwrap()
    }

    /// Size of the data in memory: the payload and, for every node, the size
    /// of the node itself; `None` when it does not fit in a `usize`.
    pub fn checked_memory_size(&self) -> (size: Option<usize>)
        ensures
            match size {
                Some(n) => n == self@.memory_size(node_overhead()),
                None => self@.memory_size(node_overhead()) > usize::MAX,
            },
        decreases self,
    {
        let overhead: usize = core::mem::size_of::<SerializableData>();
        proof {
            if self@.is_leaf() {
                self@.memory_size_of_leaf(node_overhead());
            }
        }
        match self {
            SerializableData::Boolean(_) => overhead.checked_add(1),
            SerializableData::Integer(_) => overhead.checked_add(4),
            SerializableData::BigInteger(_) => overhead.checked_add(8),
            SerializableData::Float(_) => overhead.checked_add(4),
            SerializableData::BigFloat(_) => overhead.checked_add(8),
            SerializableData::StringLiteral(literal) => overhead.checked_add(
                literal.as_str().as_bytes().len(),
            ),
            SerializableData::KeyValuePair(key, value) => {
                proof {
                    Value::memory_size_of_pair(key@, value@, node_overhead());
                }
                let own = overhead.checked_add(key.as_str().as_bytes().len());
                match (own, value.checked_memory_size()) {
                    (Some(own), Some(inner)) => own.checked_add(inner),
                    _ => None,
                }
            },
            SerializableData::List(items) => {
                proof {
                    Value::memory_size_of_list(Self::models(items@), node_overhead());
                }
                match Self::checked_memory_sum(items) {
                    Some(inner) => overhead.checked_add(inner),
                    None => None,
                }
            },
        }
    }

    /// The memory footprint of all of `items`, `None` when it does not fit in
    /// a `usize`.
    fn checked_memory_sum(items: &Vec<SerializableData>) -> (size: Option<usize>)
        ensures
            match size {
                Some(n) => n == Value::memory_prefix(
                    Self::models(items@),
                    node_overhead(),
                    items@.len(),
                ),
                None => Value::memory_prefix(Self::models(items@), node_overhead(), items@.len())
                    > usize::MAX,
            },
        decreases items,
    {
        let ghost children = Self::models(items@);
        let mut total: usize = 0;
        let mut i: usize = 0;
        assert(node_overhead() * 0 == 0);
        while i < items.len()
            invariant
                i <= items.len(),
                children == Self::models(items@),
                total == Value::memory_prefix(children, node_overhead(), i as nat),
            decreases items.len() - i,
        {
            proof {
                Value::memory_prefix_step(children, node_overhead(), (i + 1) as nat);
                Value::memory_prefix_grows(
                    children,
                    node_overhead(),
                    (i + 1) as nat,
                    children.len(),
                );
            }
            let step = match items[i].checked_memory_size() {
                Some(inner) => total.checked_add(inner),
                None => None,
            };
            match step {
                Some(sum) => {
                    total = sum;
                },
                None => {
                    return None;
                },
            }
            i = i + 1;
        }
        Some(total)
    }

    /// Size of the data in memory: the payload and, for every node, the size
    /// of the node itself.
    pub fn memory_size(&self) -> (size: usize)
        requires
            self@.memory_size(node_overhead()) <= usize::MAX,
        ensures
            size == self@.memory_size(node_overhead()),
    {
        self.checked_memory_size().unwrap()
    }

    /// How deeply the data is nested; `None` when that does not fit in a
    /// `usize`.
    pub fn checked_depth(&self) -> (depth: Option<usize>)
        ensures
            match depth {
                Some(n) => n == self@.depth(),
                None => self@.depth() > usize::MAX,
            },
        decreases self,
    {
        match self {
            SerializableData::KeyValuePair(_, value) => {
                match value.checked_depth() {
                    Some(inner) => inner.checked_add(1),
                    None => None,
                }
            },
            SerializableData::List(items) => {
                if items.len() == 0 {
                    Some(0)
                } else {
                    match Self::checked_deepest(items) {
                        Some(inner) => inner.checked_add(1),
                        None => None,
                    }
                }
            },
            _ => Some(0),
        }
    }

    /// The depth of the deepest of `items`, `None` when it does not fit in a
    /// `usize`.
    fn checked_deepest(items: &Vec<SerializableData>) -> (depth: Option<usize>)
        ensures
            match depth {
                Some(n) => n == Value::deepest(Self::models(items@), items@.len()),
                None => Value::deepest(Self::models(items@), items@.len()) > usize::MAX,
            },
        decreases items,
    {
        let ghost children = Self::models(items@);
        let mut deepest: usize = 0;
        let mut i: usize = 0;
        while i < items.len()
            invariant
                i <= items.len(),
                children == Self::models(items@),
                deepest == Value::deepest(children, i as nat),
            decreases items.len() - i,
        {
            proof {
                Value::deepest_grows(children, (i + 1) as nat, children.len());
            }
            match items[i].checked_depth() {
                Some(here) => {
                    if here > deepest {
                        deepest = here;
                    }
                },
                None => {
                    return None;
                },
            }
            i = i + 1;
        }
        Some(deepest)
    }

    /// How deeply the data is nested.
    pub fn depth(&self) -> (depth: usize)
        requires
            self@.depth() <= usize::MAX,
        ensures
            depth == self@.depth(),
    {
        self.checked_depth().unwrap()
    }
}

impl SerializableData {
    /// Whether `self` and `other` stand for the same tree: the same variants
    /// in the same shape, holding the same scalars in the same order.
    pub fn structurally_equal(&self, other: &SerializableData) -> (same: bool)
        ensures
            same == (self@ == other@),
        decreases self,
    {
        match (self, other) {
            (SerializableData::Boolean(a), SerializableData::Boolean(b)) => *a == *b,
            (SerializableData::Integer(a), SerializableData::Integer(b)) => *a == *b,
            (SerializableData::BigInteger(a), SerializableData::BigInteger(b)) => *a == *b,
            (SerializableData::Float(a), SerializableData::Float(b)) => *a == *b,
            (SerializableData::BigFloat(a), SerializableData::BigFloat(b)) => *a == *b,
            (SerializableData::StringLiteral(a), SerializableData::StringLiteral(b)) => *a == *b,
            (SerializableData::KeyValuePair(ka, va), SerializableData::KeyValuePair(kb, vb)) => {
                *ka == *kb && va.structurally_equal(vb)
            },
            (SerializableData::List(a), SerializableData::List(b)) => Self::all_structurally_equal(
                a,
                b,
            ),
            _ => false,
        }
    }

    /// Whether `left` and `right` have the same length and stand for the same
    /// trees, element by element.
    fn all_structurally_equal(left: &Vec<SerializableData>, right: &Vec<SerializableData>) -> (same:
        bool)
        ensures
            same == (Self::models(left@) == Self::models(right@)),
        decreases left,
    {
        if left.len() != right.len() {
            assert(Self::models(left@).len() != Self::models(right@).len());
            return false;
        }
        let mut i: usize = 0;
        while i < left.len()
            invariant
                i <= left.len(),
                left.len() == right.len(),
                forall|j: int| 0 <= j < i ==> left@[j]@ == right@[j]@,
            decreases left.len() - i,
        {
            if !left[i].structurally_equal(&right[i]) {
                assert(Self::models(left@)[i as int] != Self::models(right@)[i as int]);
                return false;
            }
            i = i + 1;
        }
        assert(Self::models(left@) =~= Self::models(right@));
        true
    }

    /// An independent copy of the data.
    fn duplicate(&self) -> (copy: SerializableData)
        ensures
            copy@ == self@,
        decreases self,
    {
        match self {
            SerializableData::Boolean(b) => SerializableData::Boolean(*b),
            SerializableData::Integer(n) => SerializableData::Integer(*n),
            SerializableData::BigInteger(n) => SerializableData::BigInteger(*n),
            SerializableData::Float(bits) => SerializableData::Float(*bits),
            SerializableData::BigFloat(bits) => SerializableData::BigFloat(*bits),
            SerializableData::StringLiteral(text) => SerializableData::StringLiteral(text.clone()),
            SerializableData::KeyValuePair(key, value) => SerializableData::KeyValuePair(
                key.clone(),
                Box::new(value.duplicate()),
            ),
            SerializableData::List(items) => SerializableData::List(Self::duplicate_all(items)),
        }
    }

    /// Independent copies of all of `items`, in order.
    fn duplicate_all(items: &Vec<SerializableData>) -> (copies: Vec<SerializableData>)
        ensures
            Self::models(copies@) == Self::models(items@),
        decreases items,
    {
        let mut copies: Vec<SerializableData> = Vec::new();
        let mut i: usize = 0;
        while i < items.len()
            invariant
                i <= items.len(),
                copies.len() == i,
                forall|j: int| 0 <= j < i ==> copies@[j]@ == items@[j]@,
            decreases items.len() - i,
        {
            copies.push(items[i].duplicate());
            i = i + 1;
        }
        assert(Self::models(copies@) =~= Self::models(items@));
        copies
    }
}

/// What a self-describing format hands over when it has read one value: a
/// scalar of the kind that it found, the first entry of a map, if the map
/// has one, or the elements of a sequence.
///
/// `Float` and `BigFloat` carry the bit pattern of the number.
#[derive(Debug)]
pub enum Token {
    Boolean(bool),
    Signed(i32),
    BigSigned(i64),
    Unsigned(u32),
    BigUnsigned(u64),
    Float(u32),
    BigFloat(u64),
    Text(String),
    Entry(Option<(String, SerializableData)>),
    Sequence(Vec<SerializableData>),
}

/// What is said of a map without an entry.
pub open spec fn missing_pair_message() -> Seq<char> {
    "Expected a key-value pair"@
}

impl SerializableData {
    /// The data that a token stands for. An unsigned number becomes the
    /// signed number of the same width and the same bits; a map becomes the
    /// pair of its first entry, and a map without an entry is an error; a
    /// sequence becomes a list.
    pub fn from_token(token: Token) -> (out: Result<SerializableData, String>)
        ensures
            match token {
                Token::Boolean(value) => out matches Ok(data) && data@ == Value::Boolean(value),
                Token::Signed(value) => out matches Ok(data) && data@ == Value::Integer(value),
                Token::BigSigned(value) => out matches Ok(data) && data@ == Value::BigInteger(
                    value,
                ),
                Token::Unsigned(value) => out matches Ok(data) && data@ == Value::Integer(
                    value as i32,
                ),
                Token::BigUnsigned(value) => out matches Ok(data) && data@ == Value::BigInteger(
                    value as i64,
                ),
                Token::Float(bits) => out matches Ok(data) && data@ == Value::Float(bits),
                Token::BigFloat(bits) => out matches Ok(data) && data@ == Value::BigFloat(bits),
                Token::Text(text) => out matches Ok(data) && data@ == Value::StringLiteral(text@),
                Token::Entry(Some(entry)) => out matches Ok(data) && data@ == Value::KeyValuePair(
                    entry.0@,
                    Box::new(entry.1@),
                ),
                Token::Entry(None) => out matches Err(message) && message@
                    == missing_pair_message(),
                Token::Sequence(items) => out matches Ok(data) && data@ == Value::List(
                    Self::models(items@),
                ),
            },
    {
        match token {
            Token::Boolean(value) => Ok(SerializableData::Boolean(value)),
            Token::Signed(value) => Ok(SerializableData::Integer(value)),
            Token::BigSigned(value) => Ok(SerializableData::BigInteger(value)),
            Token::Unsigned(value) => Ok(
                SerializableData::Integer(
                    #[verifier::truncate]
                    (value as i32),
                ),
            ),
            Token::BigUnsigned(value) => Ok(
                SerializableData::BigInteger(
                    #[verifier::truncate]
                    (value as i64),
                ),
            ),
            Token::Float(bits) => Ok(SerializableData::Float(bits)),
            Token::BigFloat(bits) => Ok(SerializableData::BigFloat(bits)),
            Token::Text(text) => Ok(SerializableData::StringLiteral(text)),
            Token::Entry(Some(entry)) => Ok(
                SerializableData::KeyValuePair(entry.0, Box::new(entry.1)),
            ),
            Token::Entry(None) => Err("Expected a key-value pair".to_owned()),
            Token::Sequence(items) => Ok(SerializableData::List(items)),
        }
    }
}

impl Clone for SerializableData {
    fn clone(&self) -> (copy: SerializableData)
        ensures
            copy@ == self@,
    {
        self.duplicate()
    }
}

} // verus!
