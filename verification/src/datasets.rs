//! The shapes of the benchmark datasets: flat lists, deep chains around a
//! flat list, and branching trees.

use crate::data::SerializableData;
use crate::datagen::random_int;
use crate::datagen::RandomSource;
use crate::model::Value;
use vstd::prelude::*;
use vstd::utf8::encode_utf8;
use vstd::utf8::is_ascii_chars;
use vstd::utf8::is_ascii_chars_encode_utf8;

verus! {

/// The key of every wrapper of a deep chain.
pub open spec fn chain_key() -> Seq<char> {
    "child"@
}

/// The key under which a tree node holds its number.
pub open spec fn tree_data_key() -> Seq<char> {
    "data"@
}

/// The key under which a tree node holds its children.
pub open spec fn tree_children_key() -> Seq<char> {
    "children"@
}

/// Whether `value` is a list of `count` 32-bit integers.
pub open spec fn is_flat_intlist(value: Value, count: nat) -> bool {
    &&& value matches Value::List(items)
    &&& items.len() == count
    &&& forall|i: int| 0 <= i < items.len() ==> (#[trigger] items[i]) is Integer
}

/// `inner` inside `depth` single-child wrappers.
pub open spec fn chain_of(depth: nat, inner: Value) -> Value
    decreases depth,
{
    if depth == 0 {
        inner
    } else {
        Value::KeyValuePair(chain_key(), Box::new(chain_of((depth - 1) as nat, inner)))
    }
}

/// Whether `value` is a tree of integers with `depth` levels below its
/// root, where every node above the last level has `fanout` children: each
/// node is a list of its number, under `"data"`, and the list of its
/// children, under `"children"`.
pub open spec fn is_int_tree(value: Value, depth: nat, fanout: nat) -> bool
    decreases depth,
{
    &&& value matches Value::List(parts)
    &&& parts.len() == 2
    &&& parts[0] matches Value::KeyValuePair(data_key, number)
    &&& data_key == tree_data_key()
    &&& *number is Integer
    &&& parts[1] matches Value::KeyValuePair(children_key, children)
    &&& children_key == tree_children_key()
    &&& *children matches Value::List(nodes)
    &&& if depth == 0 {
        nodes.len() == 0
    } else {
        &&& nodes.len() == fanout
        &&& forall|i: int|
            0 <= i < nodes.len() ==> is_int_tree(#[trigger] nodes[i], (depth - 1) as nat, fanout)
    }
}

/// A list of `count` 32-bit integers has four bytes of payload for each, and
/// depth one unless it is empty.
pub proof fn flat_intlist_metrics(value: Value, count: nat)
    requires
        is_flat_intlist(value, count),
    ensures
        value.payload_size() == 4 * count,
        value.depth() == (if count == 0 {
            0nat
        } else {
            1nat
        }),
{
    let items = value->List_0;
    Value::payload_size_of_flat_list(items, 4);
    deepest_of_leaves(items, items.len());
}

/// The deepest of elements that are all scalars has depth zero.
proof fn deepest_of_leaves(items: Seq<Value>, n: nat)
    requires
        n <= items.len(),
        forall|i: int| 0 <= i < items.len() ==> (#[trigger] items[i]).is_leaf(),
    ensures
        Value::deepest(items, n) == 0,
    decreases n,
{
    if n > 0 {
        deepest_of_leaves(items, (n - 1) as nat);
        assert(items[n - 1].is_leaf());
        assert(items[n - 1].depth() == 0);
    }
}

/// Each wrapper of a chain adds one level of depth and the five bytes of its
/// key, and one node.
pub proof fn chain_metrics(depth: nat, inner: Value)
    ensures
        chain_of(depth, inner).depth() == depth + inner.depth(),
        chain_of(depth, inner).payload_size() == 5 * depth + inner.payload_size(),
        chain_of(depth, inner).node_count() == depth + inner.node_count(),
    decreases depth,
{
    if depth > 0 {
        chain_metrics((depth - 1) as nat, inner);
        chain_key_is_five_bytes();
    }
}

/// The key of a chain wrapper takes five bytes.
proof fn chain_key_is_five_bytes()
    ensures
        encode_utf8(chain_key()).len() == 5,
{
    reveal_strlit("child");
    assert(is_ascii_chars("child"@));
    is_ascii_chars_encode_utf8("child"@);
}

/// The number of four-byte numbers in a flat list that is to hold
/// `size_in_bytes` bytes of payload: as many as fit.
pub fn flat_list_length(size_in_bytes: usize) -> (count: usize)
    ensures
        count == size_in_bytes / 4,
{
    size_in_bytes / 4
}

/// A flat list of random 32-bit integers that holds `size_in_bytes` bytes of
/// payload, rounded down to whole integers.
pub fn generate_dataset_flat_intlist(size_in_bytes: usize, source: &mut RandomSource) -> (data:
    SerializableData)
    ensures
        is_flat_intlist(data@, (size_in_bytes / 4) as nat),
        data@.payload_size() == 4 * (size_in_bytes / 4),
        data@.depth() == (if size_in_bytes / 4 == 0 {
            0nat
        } else {
            1nat
        }),
{
    let count: usize = flat_list_length(size_in_bytes);
    let mut items: Vec<SerializableData> = Vec::new();
    let mut i: usize = 0;
    while i < count
        invariant
            i <= count,
            items.len() == i,
            forall|j: int| 0 <= j < i ==> (#[trigger] items@[j]@) is Integer,
        decreases count - i,
    {
        items.push(random_int(source));
        i = i + 1;
    }
    let data = SerializableData::List(items);
    proof {
        let children = SerializableData::models(items@);
        assert forall|j: int| 0 <= j < children.len() implies (#[trigger] children[j])
            is Integer by {
            assert(items@[j]@ is Integer);
        }
        flat_intlist_metrics(data@, count as nat);
    }
    data
}

/// `inner` inside `depth` single-child wrappers, each under the key `"child"`.
pub fn deep_chain(depth: usize, inner: SerializableData) -> (data: SerializableData)
    ensures
        data@ == chain_of(depth as nat, inner@),
{
    let mut data = inner;
    let mut i: usize = 0;
    while i < depth
        invariant
            i <= depth,
            data@ == chain_of(i as nat, inner@),
        decreases depth - i,
    {
        data = SerializableData::KeyValuePair("child".to_owned(), Box::new(data));
        i = i + 1;
    }
    data
}

/// A flat list of random 32-bit integers that holds `size_in_bytes` bytes of
/// payload, inside `depth` single-child wrappers.
pub fn generate_dataset_deep_flat_intlist(
    depth: usize,
    size_in_bytes: usize,
    source: &mut RandomSource,
) -> (data: SerializableData)
    ensures
        exists|inner: Value|
            is_flat_intlist(inner, (size_in_bytes / 4) as nat) && data@ == chain_of(
                depth as nat,
                inner,
            ),
        data@.payload_size() == 5 * depth + 4 * (size_in_bytes / 4),
        data@.depth() == depth + (if size_in_bytes / 4 == 0 {
            0nat
        } else {
            1nat
        }),
{
    let inner = generate_dataset_flat_intlist(size_in_bytes, source);
    proof {
        flat_intlist_metrics(inner@, (size_in_bytes / 4) as nat);
        chain_metrics(depth as nat, inner@);
    }
    deep_chain(depth, inner)
}

/// The list of the 32-bit floating-point numbers whose bit patterns are
/// `numbers`, in their order.
pub open spec fn flat_floatlist_of(numbers: Seq<u32>) -> Value {
    Value::List(Seq::new(numbers.len(), |i: int| Value::Float(numbers[i])))
}

/// A list of 32-bit floating-point numbers has four bytes of payload for
/// each, and depth one unless it is empty.
pub proof fn flat_floatlist_metrics(numbers: Seq<u32>)
    ensures
        flat_floatlist_of(numbers).payload_size() == 4 * numbers.len(),
        flat_floatlist_of(numbers).depth() == (if numbers.len() == 0 {
            0nat
        } else {
            1nat
        }),
{
    let items = flat_floatlist_of(numbers)->List_0;
    Value::payload_size_of_flat_list(items, 4);
    deepest_of_leaves(items, items.len());
}

/// A flat list of the 32-bit floating-point numbers whose bit patterns are
/// `numbers`, in their order.
pub fn generate_dataset_flat_floatlist(numbers: &Vec<u32>) -> (data: SerializableData)
    ensures
        data@ == flat_floatlist_of(numbers@),
        data@.payload_size() == 4 * numbers@.len(),
{
    let mut items: Vec<SerializableData> = Vec::new();
    let mut i: usize = 0;
    while i < numbers.len()
        invariant
            i <= numbers.len(),
            items.len() == i,
            forall|j: int| 0 <= j < i ==> (#[trigger] items@[j])@ == Value::Float(numbers@[j]),
        decreases numbers.len() - i,
    {
        items.push(SerializableData::Float(numbers[i]));
        i = i + 1;
    }
    proof {
        assert(SerializableData::models(items@) =~= flat_floatlist_of(numbers@)->List_0);
        flat_floatlist_metrics(numbers@);
    }
    SerializableData::List(items)
}

/// A flat list of the 32-bit floating-point numbers whose bit patterns are
/// `numbers`, inside `depth` single-child wrappers.
pub fn generate_dataset_deep_flat_floatlist(depth: usize, numbers: &Vec<u32>) -> (data:
    SerializableData)
    ensures
        data@ == chain_of(depth as nat, flat_floatlist_of(numbers@)),
        data@.payload_size() == 5 * depth + 4 * numbers@.len(),
        data@.depth() == depth + (if numbers@.len() == 0 {
            0nat
        } else {
            1nat
        }),
{
    proof {
        flat_floatlist_metrics(numbers@);
        chain_metrics(depth as nat, flat_floatlist_of(numbers@));
    }
    deep_chain(depth, generate_dataset_flat_floatlist(numbers))
}

/// A tree of random 32-bit integers with `depth` levels below its root,
/// where every node above the last level has `children_per_node` children.
pub fn generate_dataset_int_tree(
    depth: usize,
    children_per_node: usize,
    source: &mut RandomSource,
) -> (data: SerializableData)
    ensures
        is_int_tree(data@, depth as nat, children_per_node as nat),
    decreases depth,
{
    let mut children: Vec<SerializableData> = Vec::new();
    if depth > 0 {
        let mut i: usize = 0;
        while i < children_per_node
            invariant
                depth > 0,
                i <= children_per_node,
                children.len() == i,
                forall|j: int|
                    0 <= j < i ==> is_int_tree(
                        #[trigger] children@[j]@,
                        (depth - 1) as nat,
                        children_per_node as nat,
                    ),
            decreases children_per_node - i,
        {
            children.push(generate_dataset_int_tree(depth - 1, children_per_node, source));
            i = i + 1;
        }
    }
    let ghost nodes = SerializableData::models(children@);
    let number = SerializableData::KeyValuePair(
        "data".to_owned(),
        Box::new(random_int(source)),
    );
    let list = SerializableData::List(children);
    assert(list@ == Value::List(nodes));
    let below = SerializableData::KeyValuePair("children".to_owned(), Box::new(list));
    let mut parts: Vec<SerializableData> = Vec::new();
    parts.push(number);
    parts.push(below);
    let data = SerializableData::List(parts);
    proof {
        let models = SerializableData::models(parts@);
        assert(models[0] == number@);
        assert(models[1] == below@);
        assert(below@ == Value::KeyValuePair(tree_children_key(), Box::new(Value::List(nodes))));
        if depth > 0 {
            assert forall|j: int| 0 <= j < nodes.len() implies is_int_tree(
                #[trigger] nodes[j],
                (depth - 1) as nat,
                children_per_node as nat,
            ) by {
                assert(is_int_tree(children@[j]@, (depth - 1) as nat, children_per_node as nat));
            }
        }
    }
    data
}

/// The shape of a benchmark dataset.
#[derive(Debug, Clone, Copy, PartialEq, Eq, Structural)]
pub enum DatasetShape {
    /// A flat list of 32-bit integers with so many bytes of payload.
    FlatIntList { size_in_bytes: usize },
    /// Such a list inside so many single-child wrappers.
    DeepFlatIntList { depth: usize, size_in_bytes: usize },
    /// A flat list of 32-bit floating-point numbers with so many bytes of
    /// payload.
    FlatFloatList { size_in_bytes: usize },
    /// Such a list inside so many single-child wrappers.
    DeepFlatFloatList { depth: usize, size_in_bytes: usize },
    /// A tree of 32-bit integers with so many levels below its root and so
    /// many children for every node above the last level.
    IntTree { depth: usize, children_per_node: usize },
}

/// A dataset to generate, as plain values.
pub ghost struct Plan {
    pub file: Seq<char>,
    pub shape: DatasetShape,
}

/// A dataset to generate: the file that is to hold it, and its shape.
#[derive(Debug)]
pub struct DatasetPlan {
    pub file: String,
    pub shape: DatasetShape,
}

impl View for DatasetPlan {
    type V = Plan;

    open spec fn view(&self) -> Plan {
        Plan { file: self.file@, shape: self.shape }
    }
}

/// The payload of the large lists, in bytes: 256 MB.
pub const LARGE_LIST: usize = 268_435_456;

/// The payload of the small lists, in bytes: 8 MB.
pub const SMALL_LIST: usize = 8_388_608;

/// The number of wrappers of the deep chains.
pub const DEEP: usize = 10_000;

/// The number of wrappers of the chains that are not so deep.
pub const NOT_SO_DEEP: usize = 50;

/// The benchmark datasets, in the order in which they are generated.
pub open spec fn standard_plans() -> Seq<Plan> {
    seq![
        Plan {
            file: "dataset_flat_intlist_256MB.json"@,
            shape: DatasetShape::FlatIntList { size_in_bytes: LARGE_LIST },
        },
        Plan {
            file: "dataset_flat_intlist_8MB.json"@,
            shape: DatasetShape::FlatIntList { size_in_bytes: SMALL_LIST },
        },
        Plan {
            file: "dataset_deep_flat_intlist_256MB.json"@,
            shape: DatasetShape::DeepFlatIntList { depth: DEEP, size_in_bytes: LARGE_LIST },
        },
        Plan {
            file: "dataset_not_so_deep_flat_intlist_256MB.json"@,
            shape: DatasetShape::DeepFlatIntList { depth: NOT_SO_DEEP, size_in_bytes: LARGE_LIST },
        },
        Plan {
            file: "dataset_deep_flat_intlist_8MB.json"@,
            shape: DatasetShape::DeepFlatIntList { depth: DEEP, size_in_bytes: SMALL_LIST },
        },
        Plan {
            file: "dataset_not_so_deep_flat_intlist_8MB.json"@,
            shape: DatasetShape::DeepFlatIntList { depth: NOT_SO_DEEP, size_in_bytes: SMALL_LIST },
        },
        Plan {
            file: "dataset_flat_floatlist_256MB.json"@,
            shape: DatasetShape::FlatFloatList { size_in_bytes: LARGE_LIST },
        },
        Plan {
            file: "dataset_flat_floatlist_8MB.json"@,
            shape: DatasetShape::FlatFloatList { size_in_bytes: SMALL_LIST },
        },
        Plan {
            file: "dataset_deep_flat_floatlist_256MB.json"@,
            shape: DatasetShape::DeepFlatFloatList { depth: DEEP, size_in_bytes: LARGE_LIST },
        },
        Plan {
            file: "dataset_not_so_deep_flat_floatlist_256MB.json"@,
            shape: DatasetShape::DeepFlatFloatList {
                depth: NOT_SO_DEEP,
                size_in_bytes: LARGE_LIST,
            },
        },
        Plan {
            file: "dataset_deep_flat_floatlist_8MB.json"@,
            shape: DatasetShape::DeepFlatFloatList { depth: DEEP, size_in_bytes: SMALL_LIST },
        },
        Plan {
            file: "dataset_not_so_deep_flat_floatlist_8MB.json"@,
            shape: DatasetShape::DeepFlatFloatList {
                depth: NOT_SO_DEEP,
                size_in_bytes: SMALL_LIST,
            },
        },
        Plan {
            file: "dataset_int_tree_small.json"@,
            shape: DatasetShape::IntTree { depth: 4, children_per_node: 8 },
        },
        Plan {
            file: "dataset_int_tree_large.json"@,
            shape: DatasetShape::IntTree { depth: 8, children_per_node: 8 },
        },
    ]
}

/// The views of `plans`, in order.
pub open spec fn plan_views(plans: Seq<DatasetPlan>) -> Seq<Plan> {
    Seq::new(plans.len(), |i: int| plans[i]@)
}

/// A dataset to be held by `file`, of the shape `shape`.
fn plan(file: &str, shape: DatasetShape) -> (plan: DatasetPlan)
    ensures
        plan@ == (Plan { file: file@, shape }),
{
    DatasetPlan { file: file.to_owned(), shape }
}

/// The benchmark datasets, in the order in which they are generated.
pub fn generate_datasets() -> (plans: Vec<DatasetPlan>)
    ensures
        plan_views(plans@) == standard_plans(),
{
    let mut plans: Vec<DatasetPlan> = Vec::new();
    plans.push(
        plan(
            "dataset_flat_intlist_256MB.json",
            DatasetShape::FlatIntList { size_in_bytes: LARGE_LIST },
        ),
    );
    plans.push(
        plan(
            "dataset_flat_intlist_8MB.json",
            DatasetShape::FlatIntList { size_in_bytes: SMALL_LIST },
        ),
    );
    plans.push(
        plan(
            "dataset_deep_flat_intlist_256MB.json",
            DatasetShape::DeepFlatIntList { depth: DEEP, size_in_bytes: LARGE_LIST },
        ),
    );
    plans.push(
        plan(
            "dataset_not_so_deep_flat_intlist_256MB.json",
            DatasetShape::DeepFlatIntList { depth: NOT_SO_DEEP, size_in_bytes: LARGE_LIST },
        ),
    );
    plans.push(
        plan(
            "dataset_deep_flat_intlist_8MB.json",
            DatasetShape::DeepFlatIntList { depth: DEEP, size_in_bytes: SMALL_LIST },
        ),
    );
    plans.push(
        plan(
            "dataset_not_so_deep_flat_intlist_8MB.json",
            DatasetShape::DeepFlatIntList { depth: NOT_SO_DEEP, size_in_bytes: SMALL_LIST },
        ),
    );
    plans.push(
        plan(
            "dataset_flat_floatlist_256MB.json",
            DatasetShape::FlatFloatList { size_in_bytes: LARGE_LIST },
        ),
    );
    plans.push(
        plan(
            "dataset_flat_floatlist_8MB.json",
            DatasetShape::FlatFloatList { size_in_bytes: SMALL_LIST },
        ),
    );
    plans.push(
        plan(
            "dataset_deep_flat_floatlist_256MB.json",
            DatasetShape::DeepFlatFloatList { depth: DEEP, size_in_bytes: LARGE_LIST },
        ),
    );
    plans.push(
        plan(
            "dataset_not_so_deep_flat_floatlist_256MB.json",
            DatasetShape::DeepFlatFloatList { depth: NOT_SO_DEEP, size_in_bytes: LARGE_LIST },
        ),
    );
    plans.push(
        plan(
            "dataset_deep_flat_floatlist_8MB.json",
            DatasetShape::DeepFlatFloatList { depth: DEEP, size_in_bytes: SMALL_LIST },
        ),
    );
    plans.push(
        plan(
            "dataset_not_so_deep_flat_floatlist_8MB.json",
            DatasetShape::DeepFlatFloatList { depth: NOT_SO_DEEP, size_in_bytes: SMALL_LIST },
        ),
    );
    plans.push(
        plan(
            "dataset_int_tree_small.json",
            DatasetShape::IntTree { depth: 4, children_per_node: 8 },
        ),
    );
    plans.push(
        plan(
            "dataset_int_tree_large.json",
            DatasetShape::IntTree { depth: 8, children_per_node: 8 },
        ),
    );
    assert(plan_views(plans@) =~= standard_plans());
    plans
}

/// The name of the dataset after which a benchmark run stops.
pub open spec fn last_benchmarked() -> Seq<char> {
    "dataset_int_tree_small.json"@
}

/// Whether a benchmark run stops after the dataset held by `file`.
pub fn ends_benchmark(file: &str) -> (last: bool)
    ensures
        last == (file@ == last_benchmarked()),
{
    file.to_owned() == "dataset_int_tree_small.json".to_owned()
}

} // verus!
