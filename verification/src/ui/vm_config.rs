//! The node editor: its fields and the nodes it creates.

use vstd::prelude::*;
use crate::lability::config::{self, default_adapter, NetworkAdapter, NodeConfig, NodeView};
use crate::text::{self, push_char, push_decimal};

verus! {

/// Which field in the node-edit form is focused.
#[derive(Debug, Clone, Copy, PartialEq, Eq, Structural)]
pub enum VmField {
    NodeName,
    Role,
    CpuCount,
    StartMemory,
    MinMemory,
    MaxMemory,
    MediaId,
    IpAddress,
}

impl Default for VmField {
    fn default() -> (r: Self)
        ensures
            r == VmField::NodeName,
    {
        VmField::NodeName
    }
}

/// The field after `f` in the form, wrapping from the last to the first.
pub open spec fn next_field(f: VmField) -> VmField {
    match f {
        VmField::NodeName => VmField::Role,
        VmField::Role => VmField::CpuCount,
        VmField::CpuCount => VmField::StartMemory,
        VmField::StartMemory => VmField::MinMemory,
        VmField::MinMemory => VmField::MaxMemory,
        VmField::MaxMemory => VmField::MediaId,
        VmField::MediaId => VmField::IpAddress,
        VmField::IpAddress => VmField::NodeName,
    }
}

/// The field before `f` in the form, wrapping from the first to the last.
pub open spec fn prev_field(f: VmField) -> VmField {
    match f {
        VmField::NodeName => VmField::IpAddress,
        VmField::Role => VmField::NodeName,
        VmField::CpuCount => VmField::Role,
        VmField::StartMemory => VmField::CpuCount,
        VmField::MinMemory => VmField::StartMemory,
        VmField::MaxMemory => VmField::MinMemory,
        VmField::MediaId => VmField::MaxMemory,
        VmField::IpAddress => VmField::MediaId,
    }
}

/// The fields in the order of the form.
pub open spec fn form_order() -> Seq<VmField> {
    seq![
        VmField::NodeName,
        VmField::Role,
        VmField::CpuCount,
        VmField::StartMemory,
        VmField::MinMemory,
        VmField::MaxMemory,
        VmField::MediaId,
        VmField::IpAddress,
    ]
}

/// Moving focus forward goes to the next field of the form, from the last
/// back to the first; moving back goes to the previous one; so forward and
/// then back, or back and then forward, returns to the field one started from.
pub proof fn lemma_field_focus_round_trip(f: VmField)
    ensures
        prev_field(next_field(f)) == f,
        next_field(prev_field(f)) == f,
        forall|i: int|
            0 <= i < 8 ==> next_field(#[trigger] form_order()[i]) == form_order()[if i == 7 { 0 } else { i + 1 }]
                && prev_field(form_order()[if i == 7 { 0 } else { i + 1 }]) == form_order()[i],
{
    assert forall|i: int| 0 <= i < 8 implies next_field(#[trigger] form_order()[i]) == form_order()[if i == 7 { 0 } else { i + 1 }]
        && prev_field(form_order()[if i == 7 { 0 } else { i + 1 }]) == form_order()[i] by {
        if i == 0 {
        } else if i == 1 {
        } else if i == 2 {
        } else if i == 3 {
        } else if i == 4 {
        } else if i == 5 {
        } else if i == 6 {
        } else {
        }
    }
}

/// The fields edited as text (the others are numbers).
pub open spec fn is_text_field(f: VmField) -> bool {
    f == VmField::NodeName || f == VmField::Role || f == VmField::MediaId || f == VmField::IpAddress
}

/// The name of the node created at position `index` (counting from 0).
pub open spec fn new_node_name(index: nat) -> Seq<char> {
    "Node"@ + text::two_digits(index + 1)
}

/// The node created at position `index`: the default node, named after its
/// position, on the default switch.
pub open spec fn new_node_view(index: nat) -> NodeView {
    NodeView { node_name: new_node_name(index), ..config::default_node() }
}

/// Create a default new node.
pub fn new_node(index: usize) -> (r: NodeConfig)
    requires
        index < usize::MAX,
    ensures
        r@ == new_node_view(index as nat),
{
    let k = index + 1;
    let mut name = String::from_str("Node");
    if k < 10 {
        push_char(&mut name, '0');
    }
    push_decimal(&mut name, k as u64);
    proof {
        assert(name@ =~= new_node_name(index as nat));
    }
    let mut node = NodeConfig::default();
    node.node_name = name;
    let mut adapters: Vec<NetworkAdapter> = Vec::new();
    adapters.push(default_adapter());
    node.network_adapters = adapters;
    proof {
        assert(config::adapters_view(node.network_adapters@) =~= config::default_node().network_adapters);
        assert(node@ =~= new_node_view(index as nat));
    }
    node
}

/// The node created at position `index` is named `Node` followed by its
/// position counting from 1, in decimal digits, with a leading `0` below
/// ten.
pub proof fn lemma_new_node_name_numbers(index: nat)
    ensures
        new_node_name(index).take(4) == "Node"@,
        forall|i: int|
            4 <= i < new_node_name(index).len() ==> '0' <= #[trigger] new_node_name(index)[i] <= '9',
        text::digits_value(new_node_name(index).skip(4)) == index + 1,
        index + 1 < 10 ==> new_node_name(index).len() == 6,
        index + 1 >= 10 ==> new_node_name(index).len() >= 6 && new_node_name(index)[4] != '0',
{
    reveal_strlit("Node");
    let d = text::two_digits(index + 1);
    text::lemma_two_digits_denotes(index + 1);
    assert(new_node_name(index).take(4) =~= "Node"@);
    assert(new_node_name(index).skip(4) =~= d);
    assert forall|i: int| 4 <= i < new_node_name(index).len() implies '0' <= #[trigger] new_node_name(
        index,
    )[i] <= '9' by {
        assert(new_node_name(index)[i] == d[i - 4]);
    }
    if index + 1 >= 10 {
        assert(new_node_name(index)[4] == d[0]);
    }
}

/// Nodes created at different positions get different names.
pub proof fn lemma_new_node_names_distinct(i: nat, j: nat)
    requires
        i != j,
    ensures
        new_node_name(i) != new_node_name(j),
{
    text::lemma_two_digits_injective(i + 1, j + 1);
    if new_node_name(i) == new_node_name(j) {
        let p = "Node"@;
        assert(new_node_name(i).skip(p.len() as int) =~= text::two_digits(i + 1));
        assert(new_node_name(j).skip(p.len() as int) =~= text::two_digits(j + 1));
    }
}

} // verus!
