//! The switch editor: the switches it creates and the type cycle.

use vstd::prelude::*;
use crate::lability::config::{SwitchType, SwitchView, VirtualSwitch};
use crate::text::{self, push_char, push_decimal};

verus! {

/// The switch type that follows `t`: Internal → External → Private → Internal.
pub open spec fn next_switch_type(t: SwitchType) -> SwitchType {
    match t {
        SwitchType::Internal => SwitchType::External,
        SwitchType::External => SwitchType::Private,
        SwitchType::Private => SwitchType::Internal,
    }
}

/// Cycling goes Internal → External → Private → Internal: each type moves
/// to another, and three steps give back the type one started with.
pub proof fn lemma_switch_type_cycle(t: SwitchType)
    ensures
        next_switch_type(next_switch_type(next_switch_type(t))) == t,
        next_switch_type(t) != t,
        next_switch_type(SwitchType::Internal) == SwitchType::External,
        next_switch_type(SwitchType::External) == SwitchType::Private,
{
}

/// The name of the switch created at position `index` (counting from 0).
pub open spec fn new_switch_name(index: nat) -> Seq<char> {
    "LabSwitch"@ + text::two_digits(index + 1)
}

/// The switch created at position `index` is named `LabSwitch` followed by
/// its position counting from 1, in decimal digits, with a leading `0`
/// below ten.
pub proof fn lemma_new_switch_name_numbers(index: nat)
    ensures
        new_switch_name(index).take(9) == "LabSwitch"@,
        forall|i: int|
            9 <= i < new_switch_name(index).len() ==> '0' <= #[trigger] new_switch_name(index)[i] <= '9',
        text::digits_value(new_switch_name(index).skip(9)) == index + 1,
        index + 1 < 10 ==> new_switch_name(index).len() == 11,
        index + 1 >= 10 ==> new_switch_name(index).len() >= 11 && new_switch_name(index)[9] != '0',
{
    reveal_strlit("LabSwitch");
    let d = text::two_digits(index + 1);
    text::lemma_two_digits_denotes(index + 1);
    assert(new_switch_name(index).take(9) =~= "LabSwitch"@);
    assert(new_switch_name(index).skip(9) =~= d);
    assert forall|i: int| 9 <= i < new_switch_name(index).len() implies '0' <= #[trigger] new_switch_name(
        index,
    )[i] <= '9' by {
        assert(new_switch_name(index)[i] == d[i - 9]);
    }
    if index + 1 >= 10 {
        assert(new_switch_name(index)[9] == d[0]);
    }
}

/// Build a new default virtual switch.
pub fn new_switch(index: usize) -> (r: VirtualSwitch)
    requires
        index < usize::MAX,
    ensures
        r@ == (SwitchView {
            name: new_switch_name(index as nat),
            switch_type: SwitchType::Internal,
            allow_management_os: true,
        }),
{
    let k = index + 1;
    let mut name = String::from_str("LabSwitch");
    if k < 10 {
        push_char(&mut name, '0');
    }
    push_decimal(&mut name, k as u64);
    proof {
        assert(name@ =~= new_switch_name(index as nat));
    }
    VirtualSwitch { name, switch_type: SwitchType::Internal, allow_management_os: true }
}

/// Cycle a switch through Internal → External → Private → Internal.
pub fn cycle_switch_type(sw: &mut VirtualSwitch)
    ensures
        final(sw)@ == (SwitchView { switch_type: next_switch_type(old(sw).switch_type), ..old(sw)@ }),
{
    sw.switch_type = match sw.switch_type {
        SwitchType::Internal => SwitchType::External,
        SwitchType::External => SwitchType::Private,
        SwitchType::Private => SwitchType::Internal,
    };
}

} // verus!
