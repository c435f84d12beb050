//! The mathematical model of generated data, and the structural metrics
//! defined over it.

use vstd::prelude::*;
use vstd::utf8::encode_utf8;

verus! {

/// A finite tree whose leaves are scalars and whose inner nodes are named
/// pairs and ordered lists.
///
/// Floating-point leaves are modelled by their IEEE 754 bit patterns, text by
/// its sequence of characters.
pub ghost enum Value {
    Boolean(bool),
    Integer(i32),
    BigInteger(i64),
    Float(u32),
    BigFloat(u64),
    StringLiteral(Seq<char>),
    KeyValuePair(Seq<char>, Box<Value>),
    List(Seq<Value>),
}

impl Value {
    /// A leaf is a scalar: it has no child.
    pub open spec fn is_leaf(self) -> bool {
        !(self is KeyValuePair) && !(self is List)
    }

    /// The payload of the first `n` elements of `items`, summed.
    pub open spec fn payload_prefix(items: Seq<Value>, n: nat) -> nat
        decreases items, n,
    {
        if n == 0 || n > items.len() {
            0
        } else {
            Self::payload_prefix(items, (n - 1) as nat) + items[n - 1].payload_size()
        }
    }

    /// The number of bytes of scalar content in the tree: one for a boolean,
    /// four or eight for a number, the encoded length of each text and key.
    pub open spec fn payload_size(self) -> nat
        decreases self,
    {
        match self {
            Value::Boolean(_) => 1,
            Value::Integer(_) => 4,
            Value::BigInteger(_) => 8,
            Value::Float(_) => 4,
            Value::BigFloat(_) => 8,
            Value::StringLiteral(text) => encode_utf8(text).len(),
            Value::KeyValuePair(key, value) => encode_utf8(key).len() + value.payload_size(),
            Value::List(items) => Self::payload_prefix(items, items.len()),
        }
    }

    /// The nodes of the first `n` elements of `items`, counted.
    pub open spec fn nodes_prefix(items: Seq<Value>, n: nat) -> nat
        decreases items, n,
    {
        if n == 0 || n > items.len() {
            0
        } else {
            Self::nodes_prefix(items, (n - 1) as nat) + items[n - 1].node_count()
        }
    }

    /// The number of nodes in the tree, the root included.
    pub open spec fn node_count(self) -> nat
        decreases self,
    {
        match self {
            Value::KeyValuePair(_, value) => 1 + value.node_count(),
            Value::List(items) => 1 + Self::nodes_prefix(items, items.len()),
            _ => 1,
        }
    }

    /// The memory footprint of the tree when every node costs `overhead`
    /// bytes on top of its payload.
    pub open spec fn memory_size(self, overhead: nat) -> nat {
        self.payload_size() + overhead * self.node_count()
    }

    /// The depth of the deepest of the first `n` elements of `items`.
    pub open spec fn deepest(items: Seq<Value>, n: nat) -> nat
        decreases items, n,
    {
        if n == 0 || n > items.len() {
            0
        } else {
            let before = Self::deepest(items, (n - 1) as nat);
            let here = items[n - 1].depth();
            if here > before {
                here
            } else {
                before
            }
        }
    }

    /// The nesting depth: zero for a scalar and for the empty list, one more
    /// than the child for a pair, one more than the deepest element for a
    /// list that has elements.
    pub open spec fn depth(self) -> nat
        decreases self,
    {
        match self {
            Value::KeyValuePair(_, value) => 1 + value.depth(),
            Value::List(items) => if items.len() == 0 {
                0
            } else {
                1 + Self::deepest(items, items.len())
            },
            _ => 0,
        }
    }

    /// A longer prefix never has less payload.
    pub proof fn payload_prefix_grows(items: Seq<Value>, m: nat, n: nat)
        requires
            m <= n <= items.len(),
        ensures
            Self::payload_prefix(items, m) <= Self::payload_prefix(items, n),
        decreases n,
    {
        if m < n {
            Self::payload_prefix_grows(items, m, (n - 1) as nat);
        }
    }

    /// The deepest element of a longer prefix is no shallower.
    pub proof fn deepest_grows(items: Seq<Value>, m: nat, n: nat)
        requires
            m <= n <= items.len(),
        ensures
            Self::deepest(items, m) <= Self::deepest(items, n),
        decreases n,
    {
        if m < n {
            Self::deepest_grows(items, m, (n - 1) as nat);
        }
    }

    /// The payload of a prefix depends on the elements of that prefix alone.
    pub proof fn payload_prefix_of_longer(items: Seq<Value>, more: Seq<Value>, n: nat)
        requires
            n <= items.len(),
        ensures
            Self::payload_prefix(items + more, n) == Self::payload_prefix(items, n),
        decreases n,
    {
        if n > 0 {
            Self::payload_prefix_of_longer(items, more, (n - 1) as nat);
            assert((items + more)[n - 1] == items[n - 1]);
        }
    }

    /// The payload of a prefix that reaches into the second of two joined
    /// parts is the payload of the first part plus that of what it takes of
    /// the second.
    pub proof fn payload_prefix_of_joined(front: Seq<Value>, back: Seq<Value>, n: nat)
        requires
            n <= back.len(),
        ensures
            Self::payload_prefix(front + back, front.len() + n) == Self::payload_prefix(
                front,
                front.len(),
            ) + Self::payload_prefix(back, n),
        decreases n,
    {
        if n == 0 {
            Self::payload_prefix_of_longer(front, back, front.len());
        } else {
            Self::payload_prefix_of_joined(front, back, (n - 1) as nat);
            assert((front + back)[front.len() + n - 1] == back[n - 1]);
        }
    }

    /// Payload is additive over the elements of a list: a list made of two
    /// parts has the payload of the one part plus the payload of the other.
    pub proof fn payload_size_is_additive(front: Seq<Value>, back: Seq<Value>)
        ensures
            Value::List(front + back).payload_size() == Value::List(front).payload_size()
                + Value::List(back).payload_size(),
    {
        Self::payload_prefix_of_joined(front, back, back.len());
    }

    /// A list whose elements all have a payload of `width` bytes has a payload
    /// of `width` bytes for each element.
    pub proof fn payload_size_of_flat_list(items: Seq<Value>, width: nat)
        requires
            forall|i: int| 0 <= i < items.len() ==> (#[trigger] items[i]).payload_size() == width,
        ensures
            Value::List(items).payload_size() == width * items.len(),
    {
        Self::payload_prefix_of_uniform(items, width, items.len());
    }

    /// The first `n` elements of a list whose elements all have a payload of
    /// `width` bytes have `width * n` bytes of payload together.
    pub proof fn payload_prefix_of_uniform(items: Seq<Value>, width: nat, n: nat)
        requires
            n <= items.len(),
            forall|i: int| 0 <= i < items.len() ==> (#[trigger] items[i]).payload_size() == width,
        ensures
            Self::payload_prefix(items, n) == width * n,
        decreases n,
    {
        if n > 0 {
            Self::payload_prefix_of_uniform(items, width, (n - 1) as nat);
            assert(width * n == width * (n - 1) + width) by (nonlinear_arith);
        }
    }

    /// The memory footprint of the first `n` elements of `items`, summed.
    pub open spec fn memory_prefix(items: Seq<Value>, overhead: nat, n: nat) -> nat {
        Self::payload_prefix(items, n) + overhead * Self::nodes_prefix(items, n)
    }

    /// One more element adds its own memory footprint to that of a prefix.
    pub proof fn memory_prefix_step(items: Seq<Value>, overhead: nat, n: nat)
        requires
            0 < n <= items.len(),
        ensures
            Self::memory_prefix(items, overhead, n) == Self::memory_prefix(
                items,
                overhead,
                (n - 1) as nat,
            ) + items[n - 1].memory_size(overhead),
    {
        let before = Self::nodes_prefix(items, (n - 1) as nat);
        let here = items[n - 1].node_count();
        assert(overhead * (before + here) == overhead * before + overhead * here)
            by (nonlinear_arith);
    }

    /// A longer prefix never has a smaller memory footprint.
    pub proof fn memory_prefix_grows(items: Seq<Value>, overhead: nat, m: nat, n: nat)
        requires
            m <= n <= items.len(),
        ensures
            Self::memory_prefix(items, overhead, m) <= Self::memory_prefix(items, overhead, n),
        decreases n,
    {
        if m < n {
            Self::memory_prefix_grows(items, overhead, m, (n - 1) as nat);
            Self::memory_prefix_step(items, overhead, n);
        }
    }

    /// A scalar costs one node on top of its payload.
    pub proof fn memory_size_of_leaf(self, overhead: nat)
        requires
            self.is_leaf(),
        ensures
            self.memory_size(overhead) == overhead + self.payload_size(),
    {
        assert(overhead * 1 == overhead) by (nonlinear_arith);
    }

    /// A list costs one node on top of the memory footprint of its elements.
    pub proof fn memory_size_of_list(items: Seq<Value>, overhead: nat)
        ensures
            Value::List(items).memory_size(overhead) == overhead + Self::memory_prefix(
                items,
                overhead,
                items.len(),
            ),
    {
        let inner = Self::nodes_prefix(items, items.len());
        assert(overhead * (1 + inner) == overhead + overhead * inner) by (nonlinear_arith);
    }

    /// A pair costs one node and its key on top of the memory footprint of
    /// its child.
    pub proof fn memory_size_of_pair(key: Seq<char>, value: Value, overhead: nat)
        ensures
            Value::KeyValuePair(key, Box::new(value)).memory_size(overhead) == overhead
                + encode_utf8(key).len() + value.memory_size(overhead),
    {
        let inner = value.node_count();
        assert(overhead * (1 + inner) == overhead + overhead * inner) by (nonlinear_arith);
    }

    /// The empty list has depth zero.
    pub proof fn depth_of_empty_list()
        ensures
            Value::List(Seq::empty()).depth() == 0,
    {
    }

    /// A pair around a scalar has depth one, whatever its key.
    pub proof fn depth_of_pair_of_leaf(key: Seq<char>, leaf: Value)
        requires
            leaf.is_leaf(),
        ensures
            Value::KeyValuePair(key, Box::new(leaf)).depth() == 1,
    {
        reveal_with_fuel(Value::depth, 2);
    }

    /// Every tree has at least one node.
    pub proof fn node_count_is_positive(self)
        ensures
            self.node_count() >= 1,
    {
    }

    /// The memory footprint is never smaller than the payload, and the two
    /// are equal exactly when a node costs nothing.
    pub proof fn memory_size_covers_payload(self, overhead: nat)
        ensures
            self.memory_size(overhead) >= self.payload_size(),
            self.memory_size(overhead) == self.payload_size() <==> overhead == 0,
    {
        let nodes = self.node_count();
        self.node_count_is_positive();
        assert(overhead * nodes >= 0) by (nonlinear_arith);
        assert(overhead * nodes == 0 <==> overhead == 0) by (nonlinear_arith)
            requires
                nodes >= 1,
        ;
    }
}

} // verus!
