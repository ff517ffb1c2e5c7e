//! Central application state and the operations that the screens' keys
//! trigger.

mod deploy;

pub use deploy::{Effect, EffectView, Event, EventView, Stage, Step, StepView};

use vstd::prelude::*;
use crate::lability::config::{
    self, default_media_list, LabConfig, LabView, NodeView, SwitchView, GIB, MIB,
};
use crate::lability::deployment::{Deployment, DeploymentView, StatusView};
use crate::text::{pop_char, push_char};
use crate::ui::network::{self, cycle_switch_type, new_switch};
use crate::ui::vm_config::{self, new_node, VmField};

verus! {

/// Which screen is currently shown.
#[derive(Debug, Clone, Copy, PartialEq, Eq, Structural)]
pub enum Screen {
    Dashboard,
    VmConfig,
    Network,
    Media,
    Deployment,
    Help,
}

/// Number of deployment actions (one per `DeploymentAction` variant).
pub const ACTION_COUNT: usize = 5;

/// Number of entries in the dashboard menu.
pub const MENU_ITEMS: usize = 6;

/// Abstract value of an [`App`].
#[verifier::ext_equal]
pub struct AppView {
    pub current_screen: Screen,
    pub should_quit: bool,
    pub lab_config: LabView,
    pub deployment: DeploymentView,
    pub menu_index: usize,
    pub menu_items_count: usize,
    pub selected_node: Option<usize>,
    pub vm_focused_field: VmField,
    pub selected_network: Option<usize>,
    pub selected_media: Option<usize>,
    pub selected_action: usize,
    pub is_editing: bool,
    pub editing_value: Seq<char>,
    pub lab_output_dir: Seq<char>,
}

/// Central application state.
pub struct App {
    pub current_screen: Screen,
    pub should_quit: bool,
    /// The lab being configured.
    pub lab_config: LabConfig,
    /// The deployment record of the lab.
    pub deployment: Deployment,
    /// Dashboard menu selection (0-based index into menu items).
    pub menu_index: usize,
    pub menu_items_count: usize,
    /// VM configuration screen.
    pub selected_node: Option<usize>,
    pub vm_focused_field: VmField,
    /// Network screen.
    pub selected_network: Option<usize>,
    /// Media screen.
    pub selected_media: Option<usize>,
    /// Deployment screen.
    pub selected_action: usize,
    /// Inline text editing, shared across screens.
    pub is_editing: bool,
    pub editing_value: String,
    /// Output directory for generated config files.
    pub lab_output_dir: String,
}

impl View for App {
    type V = AppView;

    open spec fn view(&self) -> AppView {
        AppView {
            current_screen: self.current_screen,
            should_quit: self.should_quit,
            lab_config: self.lab_config@,
            deployment: self.deployment@,
            menu_index: self.menu_index,
            menu_items_count: self.menu_items_count,
            selected_node: self.selected_node,
            vm_focused_field: self.vm_focused_field,
            selected_network: self.selected_network,
            selected_media: self.selected_media,
            selected_action: self.selected_action,
            is_editing: self.is_editing,
            editing_value: self.editing_value@,
            lab_output_dir: self.lab_output_dir@,
        }
    }
}

/// Number of built-in media entries.
pub open spec fn media_count() -> nat {
    config::builtin_media().len()
}

impl AppView {
    /// The state invariant that every operation keeps: selections point at
    /// existing entries, an idle editor holds no text, the names that the
    /// editor guards are non-empty, custom data keys are distinct, and the
    /// deployment record names the configured lab.
    pub open spec fn wf(self) -> bool {
        &&& self.menu_index < self.menu_items_count
        &&& (self.selected_node matches Some(i) ==> i < self.lab_config.nodes.len())
        &&& (self.selected_network matches Some(i) ==> i < self.lab_config.networks.len())
        &&& (self.selected_media matches Some(i) ==> i < media_count())
        &&& self.selected_action < ACTION_COUNT
        &&& (!self.is_editing ==> self.editing_value.len() == 0)
        &&& self.lab_config.environment_name.len() > 0
        &&& self.lab_output_dir.len() > 0
        &&& self.deployment.environment_name == self.lab_config.environment_name
        &&& forall|i: int|
            0 <= i < self.lab_config.nodes.len() ==> {
                &&& (#[trigger] self.lab_config.nodes[i]).node_name.len() > 0
                &&& self.lab_config.nodes[i].media_id.len() > 0
                &&& self.lab_config.nodes[i].custom_keys_distinct()
            }
        &&& forall|i: int|
            0 <= i < self.lab_config.networks.len() ==> (#[trigger] self.lab_config.networks[i]).name.len() > 0
    }

    /// This state with node `i` replaced by `n`.
    pub open spec fn with_node(self, i: int, n: NodeView) -> AppView {
        AppView { lab_config: LabView { nodes: self.lab_config.nodes.update(i, n), ..self.lab_config }, ..self }
    }

    /// This state with switch `i` replaced by `s`.
    pub open spec fn with_network(self, i: int, s: SwitchView) -> AppView {
        AppView {
            lab_config: LabView { networks: self.lab_config.networks.update(i, s), ..self.lab_config },
            ..self
        }
    }

    /// Whether the focused field of the current screen is edited as text.
    pub open spec fn focused_text(self) -> bool {
        match self.current_screen {
            Screen::VmConfig => self.selected_node is Some && vm_config::is_text_field(self.vm_focused_field),
            Screen::Network => self.selected_network is Some,
            Screen::Dashboard => true,
            Screen::Deployment => true,
            _ => false,
        }
    }

    /// The current value of the focused text field, when there is one to edit.
    pub open spec fn edit_source(self) -> Option<Seq<char>> {
        if !self.focused_text() {
            None
        } else {
            match self.current_screen {
                Screen::VmConfig => {
                    let i = self.selected_node->0;
                    if i < self.lab_config.nodes.len() {
                        let n = self.lab_config.nodes[i as int];
                        match self.vm_focused_field {
                            VmField::NodeName => Some(n.node_name),
                            VmField::Role => Some(n.role),
                            VmField::MediaId => Some(n.media_id),
                            VmField::IpAddress => Some(
                                match n.ip_address {
                                    Some(ip) => ip,
                                    None => Seq::empty(),
                                },
                            ),
                            _ => None,
                        }
                    } else {
                        None
                    }
                },
                Screen::Network => {
                    let i = self.selected_network->0;
                    if i < self.lab_config.networks.len() {
                        Some(self.lab_config.networks[i as int].name)
                    } else {
                        None
                    }
                },
                Screen::Dashboard => Some(self.lab_config.environment_name),
                _ => Some(self.lab_output_dir),
            }
        }
    }

    /// Node `n` after saving `v` into its text field `f`. Name and media id
    /// keep their value when `v` is empty; an empty IP address clears it.
    pub open spec fn node_with_text(n: NodeView, f: VmField, v: Seq<char>) -> NodeView {
        match f {
            VmField::NodeName => if v.len() > 0 {
                NodeView { node_name: v, ..n }
            } else {
                n
            },
            VmField::Role => NodeView { role: v, ..n },
            VmField::MediaId => if v.len() > 0 {
                NodeView { media_id: v, ..n }
            } else {
                n
            },
            VmField::IpAddress => NodeView {
                ip_address: if v.len() == 0 {
                    None
                } else {
                    Some(v)
                },
                ..n
            },
            _ => n,
        }
    }

    /// This state after saving `v` into the focused field of the current screen.
    pub open spec fn save_text(self, v: Seq<char>) -> AppView {
        match self.current_screen {
            Screen::VmConfig => match self.selected_node {
                Some(i) => if i < self.lab_config.nodes.len() {
                    self.with_node(
                        i as int,
                        Self::node_with_text(self.lab_config.nodes[i as int], self.vm_focused_field, v),
                    )
                } else {
                    self
                },
                None => self,
            },
            Screen::Network => match self.selected_network {
                Some(i) => if i < self.lab_config.networks.len() && v.len() > 0 {
                    self.with_network(i as int, SwitchView { name: v, ..self.lab_config.networks[i as int] })
                } else {
                    self
                },
                None => self,
            },
            Screen::Dashboard => if v.len() > 0 {
                AppView {
                    lab_config: LabView { environment_name: v, ..self.lab_config },
                    deployment: DeploymentView { environment_name: v, ..self.deployment },
                    ..self
                }
            } else {
                self
            },
            Screen::Deployment => if v.len() > 0 {
                AppView { lab_output_dir: v, ..self }
            } else {
                self
            },
            _ => self,
        }
    }

    /// This state after confirming the edit in progress, if any: the editor
    /// is closed and emptied and its text is saved.
    pub open spec fn committed(self) -> AppView {
        if !self.is_editing {
            self
        } else {
            AppView { is_editing: false, editing_value: Seq::empty(), ..self }.save_text(self.editing_value)
        }
    }

    /// The screen that menu entry `i` opens.
    pub open spec fn menu_screen(i: usize) -> Screen {
        if i == 0 {
            Screen::VmConfig
        } else if i == 1 {
            Screen::Network
        } else if i == 2 {
            Screen::Media
        } else if i == 3 {
            Screen::Deployment
        } else if i == 4 {
            Screen::Help
        } else {
            Screen::Dashboard
        }
    }

    /// A selection moved up by one in a list of `len` entries; nothing
    /// selected selects the first entry of a non-empty list.
    pub open spec fn select_up(sel: Option<usize>, len: nat) -> Option<usize> {
        match sel {
            Some(i) => if i > 0 {
                Some((i - 1) as usize)
            } else {
                sel
            },
            None => if len > 0 {
                Some(0)
            } else {
                None
            },
        }
    }

    /// A selection moved down by one in a list of `len` entries, stopping at
    /// the last; nothing selected selects the first entry.
    pub open spec fn select_down(sel: Option<usize>, len: nat) -> Option<usize> {
        if len == 0 {
            sel
        } else {
            match sel {
                Some(i) => if i + 1 < len {
                    Some((i + 1) as usize)
                } else {
                    sel
                },
                None => Some(0),
            }
        }
    }

    /// The selection after deleting the selected entry of a list that had
    /// `len` entries: the entry before it, or nothing once the list is empty.
    pub open spec fn select_after_delete(i: usize, len: nat) -> Option<usize> {
        if len <= 1 {
            None
        } else if i == 0 {
            Some(0)
        } else {
            Some((i - 1) as usize)
        }
    }
}

/// The step by which the memory fields change.
pub open spec fn memory_step() -> int {
    512 * MIB
}

/// Node `n` after the `+` key on field `f`: processors grow by one up to
/// 64, memory by 512 MiB up to 64 GiB; other fields stay.
pub open spec fn node_incremented(n: NodeView, f: VmField) -> NodeView {
    let cap = 64 * GIB;
    match f {
        VmField::CpuCount => NodeView {
            cpu_count: (if n.cpu_count + 1 <= 64 {
                n.cpu_count + 1
            } else {
                64
            }) as u32,
            ..n
        },
        VmField::StartMemory => NodeView {
            start_up_memory_bytes: (if n.start_up_memory_bytes + memory_step() <= cap {
                n.start_up_memory_bytes + memory_step()
            } else {
                cap
            }) as u64,
            ..n
        },
        VmField::MinMemory => NodeView {
            minimum_memory_bytes: (if n.minimum_memory_bytes + memory_step() <= cap {
                n.minimum_memory_bytes + memory_step()
            } else {
                cap
            }) as u64,
            ..n
        },
        VmField::MaxMemory => NodeView {
            maximum_memory_bytes: (if n.maximum_memory_bytes + memory_step() <= cap {
                n.maximum_memory_bytes + memory_step()
            } else {
                cap
            }) as u64,
            ..n
        },
        _ => n,
    }
}

/// `m` less the memory step, saturating at zero, and then at least `floor`.
pub open spec fn memory_decreased(m: u64, floor: int) -> u64 {
    let lowered = if m >= memory_step() {
        m - memory_step()
    } else {
        0
    };
    (if lowered >= floor {
        lowered
    } else {
        floor
    }) as u64
}

/// Node `n` after the `-` key on field `f`: processors shrink by one down
/// to 1; start-up and maximum memory by 512 MiB down to 512 MiB, minimum
/// memory down to 256 MiB; other fields stay.
pub open spec fn node_decremented(n: NodeView, f: VmField) -> NodeView {
    match f {
        VmField::CpuCount => NodeView {
            cpu_count: if n.cpu_count > 1 {
                (n.cpu_count - 1) as u32
            } else {
                n.cpu_count
            },
            ..n
        },
        VmField::StartMemory => NodeView {
            start_up_memory_bytes: memory_decreased(n.start_up_memory_bytes, 512 * MIB),
            ..n
        },
        VmField::MinMemory => NodeView {
            minimum_memory_bytes: memory_decreased(n.minimum_memory_bytes, 256 * MIB),
            ..n
        },
        VmField::MaxMemory => NodeView {
            maximum_memory_bytes: memory_decreased(n.maximum_memory_bytes, 512 * MIB),
            ..n
        },
        _ => n,
    }
}

/// `+` changes only the focused number of the node: the processor count
/// becomes one more, at most 64, and a memory field 512 MiB more, at most
/// 64 GiB, each computed from that same field's old value; a value that was
/// within the cap never goes down. Text fields are left alone.
pub proof fn lemma_increment_focused_field(n: NodeView, f: VmField)
    ensures
        f == VmField::CpuCount ==> node_incremented(n, f) == (NodeView {
            cpu_count: (if n.cpu_count + 1 <= 64 { n.cpu_count + 1 } else { 64 }) as u32,
            ..n
        }),
        f == VmField::StartMemory ==> node_incremented(n, f) == (NodeView {
            start_up_memory_bytes: (if n.start_up_memory_bytes + 512 * MIB <= 64 * GIB {
                n.start_up_memory_bytes + 512 * MIB
            } else {
                64 * GIB
            }) as u64,
            ..n
        }),
        f == VmField::MinMemory ==> node_incremented(n, f) == (NodeView {
            minimum_memory_bytes: (if n.minimum_memory_bytes + 512 * MIB <= 64 * GIB {
                n.minimum_memory_bytes + 512 * MIB
            } else {
                64 * GIB
            }) as u64,
            ..n
        }),
        f == VmField::MaxMemory ==> node_incremented(n, f) == (NodeView {
            maximum_memory_bytes: (if n.maximum_memory_bytes + 512 * MIB <= 64 * GIB {
                n.maximum_memory_bytes + 512 * MIB
            } else {
                64 * GIB
            }) as u64,
            ..n
        }),
        n.cpu_count <= 64 ==> node_incremented(n, f).cpu_count >= n.cpu_count,
        n.start_up_memory_bytes <= 64 * GIB ==> node_incremented(n, f).start_up_memory_bytes
            >= n.start_up_memory_bytes,
        n.minimum_memory_bytes <= 64 * GIB ==> node_incremented(n, f).minimum_memory_bytes
            >= n.minimum_memory_bytes,
        n.maximum_memory_bytes <= 64 * GIB ==> node_incremented(n, f).maximum_memory_bytes
            >= n.maximum_memory_bytes,
        vm_config::is_text_field(f) ==> node_incremented(n, f) == n,
{
}

/// `-` changes only the focused number of the node: the processor count
/// becomes one less unless it is 1 or less; a memory field drops by 512 MiB
/// (stopping at zero) and then is raised to its floor, 256 MiB for minimum
/// memory and 512 MiB for the others, each computed from that same field's
/// old value; a value at or above its floor never goes up. Text fields are
/// left alone.
pub proof fn lemma_decrement_focused_field(n: NodeView, f: VmField)
    ensures
        f == VmField::CpuCount ==> node_decremented(n, f) == (NodeView {
            cpu_count: (if n.cpu_count > 1 { n.cpu_count - 1 } else { n.cpu_count as int }) as u32,
            ..n
        }),
        f == VmField::StartMemory ==> node_decremented(n, f) == (NodeView {
            start_up_memory_bytes: (if n.start_up_memory_bytes >= 1024 * MIB {
                n.start_up_memory_bytes - 512 * MIB
            } else {
                512 * MIB
            }) as u64,
            ..n
        }),
        f == VmField::MinMemory ==> node_decremented(n, f) == (NodeView {
            minimum_memory_bytes: (if n.minimum_memory_bytes >= 768 * MIB {
                n.minimum_memory_bytes - 512 * MIB
            } else {
                256 * MIB
            }) as u64,
            ..n
        }),
        f == VmField::MaxMemory ==> node_decremented(n, f) == (NodeView {
            maximum_memory_bytes: (if n.maximum_memory_bytes >= 1024 * MIB {
                n.maximum_memory_bytes - 512 * MIB
            } else {
                512 * MIB
            }) as u64,
            ..n
        }),
        node_decremented(n, f).cpu_count <= n.cpu_count,
        n.start_up_memory_bytes >= 512 * MIB ==> node_decremented(n, f).start_up_memory_bytes
            <= n.start_up_memory_bytes,
        n.minimum_memory_bytes >= 256 * MIB ==> node_decremented(n, f).minimum_memory_bytes
            <= n.minimum_memory_bytes,
        n.maximum_memory_bytes >= 512 * MIB ==> node_decremented(n, f).maximum_memory_bytes
            <= n.maximum_memory_bytes,
        vm_config::is_text_field(f) ==> node_decremented(n, f) == n,
{
}

/// Editing starts from the current value of the focused field: the name,
/// role, media id or IP address (empty when there is none) of the selected
/// node, the name of the selected switch, the lab name on the dashboard, the
/// output directory on the deployment screen; the numeric node fields and
/// the other screens have nothing to edit.
pub proof fn lemma_edit_starts_from_current_value(a: AppView)
    ensures
        a.current_screen == Screen::VmConfig && a.selected_node is Some && a.selected_node->0
            < a.lab_config.nodes.len() ==> {
            let n = a.lab_config.nodes[a.selected_node->0 as int];
            &&& a.vm_focused_field == VmField::NodeName ==> a.edit_source() == Some(n.node_name)
            &&& a.vm_focused_field == VmField::Role ==> a.edit_source() == Some(n.role)
            &&& a.vm_focused_field == VmField::MediaId ==> a.edit_source() == Some(n.media_id)
            &&& (a.vm_focused_field == VmField::IpAddress && n.ip_address is Some) ==> a.edit_source()
                == Some(n.ip_address->0)
            &&& (a.vm_focused_field == VmField::IpAddress && n.ip_address is None) ==> a.edit_source()
                == Some(Seq::<char>::empty())
            &&& !vm_config::is_text_field(a.vm_focused_field) ==> a.edit_source() is None
        },
        a.current_screen == Screen::VmConfig && a.selected_node is None ==> a.edit_source() is None,
        a.current_screen == Screen::Network && a.selected_network is Some && a.selected_network->0
            < a.lab_config.networks.len() ==> a.edit_source() == Some(
            a.lab_config.networks[a.selected_network->0 as int].name,
        ),
        a.current_screen == Screen::Network && a.selected_network is None ==> a.edit_source() is None,
        a.current_screen == Screen::Dashboard ==> a.edit_source() == Some(a.lab_config.environment_name),
        a.current_screen == Screen::Deployment ==> a.edit_source() == Some(a.lab_output_dir),
        (a.current_screen == Screen::Media || a.current_screen == Screen::Help) ==> a.edit_source() is None,
{
}

/// Starting an edit and confirming it straight away leaves the state as it
/// was (for a well-formed state whose nodes have no empty IP address, which
/// confirming would clear).
pub proof fn lemma_edit_round_trip(a: AppView)
    requires
        a.wf(),
        !a.is_editing,
        forall|i: int|
            0 <= i < a.lab_config.nodes.len() ==> (#[trigger] a.lab_config.nodes[i]).ip_address != Some(
                Seq::<char>::empty(),
            ),
    ensures
        a.edit_source() matches Some(v) ==> (AppView { is_editing: true, editing_value: v, ..a }).committed() == a,
{
    if a.edit_source() is Some {
        let v = a.edit_source()->0;
        let b = AppView { is_editing: true, editing_value: v, ..a };
        let closed = AppView { is_editing: false, editing_value: Seq::empty(), ..b };
        assert(closed =~= a);
        match a.current_screen {
            Screen::VmConfig => {
                let i = a.selected_node->0 as int;
                let n = a.lab_config.nodes[i];
                assert(n.node_name.len() > 0 && n.media_id.len() > 0);
                assert(n.ip_address != Some(Seq::<char>::empty()));
                if a.vm_focused_field == VmField::IpAddress {
                    if n.ip_address is Some {
                        assert(v == n.ip_address->0);
                        if v.len() == 0 {
                            assert(v =~= Seq::<char>::empty());
                        }
                        assert(v.len() > 0);
                    } else {
                        assert(v.len() == 0);
                    }
                }
                assert(AppView::node_with_text(n, a.vm_focused_field, v) =~= n);
                assert(a.lab_config.nodes.update(i, n) =~= a.lab_config.nodes);
                assert(closed.save_text(v) =~= a);
            },
            Screen::Network => {
                let i = a.selected_network->0 as int;
                let sw = a.lab_config.networks[i];
                assert(a.lab_config.networks.update(i, SwitchView { name: v, ..sw }) =~= a.lab_config.networks);
                assert(closed.save_text(v) =~= a);
            },
            Screen::Dashboard => {
                assert(closed.save_text(v) =~= a);
            },
            _ => {
                assert(closed.save_text(v) =~= a);
            },
        }
    }
}

/// Confirming an edit closes and empties the editor and stores the typed
/// text in the focused field: node name, media id, switch name, lab name
/// (in the deployment record too) and output directory only when it is not
/// empty, the role always, the IP address as none when empty. Other nodes
/// and switches stay as they were.
pub proof fn lemma_confirm_stores_text(a: AppView)
    requires
        a.is_editing,
    ensures
        !a.committed().is_editing,
        a.committed().editing_value.len() == 0,
        a.committed().lab_config.nodes.len() == a.lab_config.nodes.len(),
        a.committed().lab_config.networks.len() == a.lab_config.networks.len(),
        a.current_screen == Screen::VmConfig && a.selected_node is Some && a.selected_node->0
            < a.lab_config.nodes.len() ==> {
            let i = a.selected_node->0 as int;
            let v = a.editing_value;
            let old_n = a.lab_config.nodes[i];
            let new_n = a.committed().lab_config.nodes[i];
            &&& forall|j: int|
                0 <= j < a.lab_config.nodes.len() && j != i ==> a.committed().lab_config.nodes[j]
                    == a.lab_config.nodes[j]
            &&& a.vm_focused_field == VmField::NodeName ==> new_n.node_name == (if v.len() > 0 {
                v
            } else {
                old_n.node_name
            })
            &&& a.vm_focused_field == VmField::Role ==> new_n.role == v
            &&& a.vm_focused_field == VmField::MediaId ==> new_n.media_id == (if v.len() > 0 {
                v
            } else {
                old_n.media_id
            })
            &&& a.vm_focused_field == VmField::IpAddress ==> new_n.ip_address == (if v.len() > 0 {
                Some(v)
            } else {
                None
            })
        },
        a.current_screen == Screen::Network && a.selected_network is Some && a.selected_network->0
            < a.lab_config.networks.len() ==> {
            let i = a.selected_network->0 as int;
            &&& a.committed().lab_config.networks[i].name == (if a.editing_value.len() > 0 {
                a.editing_value
            } else {
                a.lab_config.networks[i].name
            })
            &&& a.committed().lab_config.networks[i].switch_type == a.lab_config.networks[i].switch_type
        },
        a.current_screen == Screen::Dashboard && a.editing_value.len() > 0 ==> {
            &&& a.committed().lab_config.environment_name == a.editing_value
            &&& a.committed().deployment.environment_name == a.editing_value
        },
        a.current_screen == Screen::Deployment ==> a.committed().lab_output_dir == (if a.editing_value.len()
            > 0 {
            a.editing_value
        } else {
            a.lab_output_dir
        }),
{
}

/// Moving a list selection down and then up returns to the entry one
/// started from, unless it was the last entry; moving up and then down
/// returns to it, unless it was the first.
pub proof fn lemma_selection_round_trip(i: usize, len: nat)
    requires
        i < len <= usize::MAX,
    ensures
        i + 1 < len ==> AppView::select_up(AppView::select_down(Some(i), len), len) == Some(i),
        i > 0 ==> AppView::select_down(AppView::select_up(Some(i), len), len) == Some(i),
{
}

/// A selection inside a list stays inside it when moved: up selects the
/// same or the previous entry, down the same or the next one, and a
/// non-empty list always has an entry selected afterwards. After the
/// selected entry `i` of a list of `len` entries is deleted, the entry just
/// before it is selected (the first one when `i` was the first), which lies
/// inside the shorter list, and nothing is selected only when that list is
/// empty.
pub proof fn lemma_selection_stays_in_list(sel: Option<usize>, i: usize, len: nat)
    requires
        len <= usize::MAX,
        sel matches Some(j) ==> j < len,
        i < len,
    ensures
        AppView::select_up(sel, len) matches Some(k) ==> k < len,
        AppView::select_down(sel, len) matches Some(k) ==> k < len,
        sel matches Some(j) ==> (AppView::select_up(sel, len) matches Some(k) && k <= j <= k + 1),
        sel matches Some(j) ==> (AppView::select_down(sel, len) matches Some(k) && j <= k <= j + 1),
        len > 0 ==> AppView::select_up(sel, len) is Some && AppView::select_down(sel, len) is Some,
        AppView::select_after_delete(i, len) is None <==> len == 1,
        AppView::select_after_delete(i, len) matches Some(k) ==> k < len - 1 && (k + 1 == i || (i == 0
            && k == 0)),
{
}

/// The menu entries open, in order, the node form, the network form, the
/// media list, the deployment screen and the help screen; every later entry
/// leads back to the dashboard.
pub proof fn lemma_menu_entries(i: usize)
    ensures
        AppView::menu_screen(0) == Screen::VmConfig,
        AppView::menu_screen(1) == Screen::Network,
        AppView::menu_screen(2) == Screen::Media,
        AppView::menu_screen(3) == Screen::Deployment,
        AppView::menu_screen(4) == Screen::Help,
        i >= 5 ==> AppView::menu_screen(i) == Screen::Dashboard,
{
}

/// The state of a freshly started application.
pub open spec fn initial_app() -> AppView {
    AppView {
        current_screen: Screen::Dashboard,
        should_quit: false,
        lab_config: LabView {
            environment_name: "MyLab"@,
            default_switch_name: config::default_switch_name(),
            nodes: Seq::empty(),
            dsc_modules: Seq::empty(),
            networks: Seq::empty(),
        },
        deployment: DeploymentView {
            environment_name: "MyLab"@,
            status: StatusView::NotStarted,
            log_lines: Seq::empty(),
        },
        menu_index: 0,
        menu_items_count: MENU_ITEMS,
        selected_node: None,
        vm_focused_field: VmField::NodeName,
        selected_network: None,
        selected_media: Some(0),
        selected_action: 0,
        is_editing: false,
        editing_value: Seq::empty(),
        lab_output_dir: "."@,
    }
}

/// Every id of the built-in media list is non-empty.
proof fn lemma_builtin_media_ids_non_empty()
    ensures
        forall|i: int| 0 <= i < media_count() ==> (#[trigger] config::builtin_media()[i]).id.len() > 0,
{
    reveal_strlit("2022_x64_Standard_EN_Eval");
    reveal_strlit("2022_x64_Datacenter_EN_Eval");
    reveal_strlit("2019_x64_Standard_EN_Eval");
    reveal_strlit("2019_x64_Datacenter_EN_Eval");
    reveal_strlit("2016_x64_Standard_EN_Eval");
    reveal_strlit("WIN10_x64_Enterprise_EN_Eval");
    reveal_strlit("WIN11_x64_Enterprise_EN_Eval");
}

/// A new node has a non-empty name and media id and no custom data.
proof fn lemma_new_node_wf(index: nat)
    ensures
        vm_config::new_node_view(index).node_name.len() > 0,
        vm_config::new_node_view(index).media_id.len() > 0,
        vm_config::new_node_view(index).custom_keys_distinct(),
{
    reveal_strlit("2022_x64_Standard_EN_Eval");
}

impl App {
    /// The application as it starts: the dashboard of an empty lab `MyLab`
    /// writing its files to the current directory.
    pub fn new() -> (r: Self)
        ensures
            r@ == initial_app(),
            r@.wf(),
    {
        let lab_config = LabConfig::new("MyLab");
        let deployment = Deployment::new("MyLab");
        let r = App {
            current_screen: Screen::Dashboard,
            should_quit: false,
            lab_config,
            deployment,
            menu_index: 0,
            menu_items_count: MENU_ITEMS,
            selected_node: None,
            vm_focused_field: VmField::NodeName,
            selected_network: None,
            selected_media: Some(0),
            selected_action: 0,
            is_editing: false,
            editing_value: String::new(),
            lab_output_dir: String::from_str("."),
        };
        proof {
            reveal_strlit("MyLab");
            reveal_strlit(".");
            assert(r@ =~= initial_app());
        }
        r
    }

    /// Go back to the dashboard, cancelling any active edit.
    pub fn go_home(&mut self)
        ensures
            final(self)@ == (AppView {
                current_screen: Screen::Dashboard,
                is_editing: false,
                editing_value: Seq::empty(),
                ..old(self)@
            }),
            old(self)@.wf() ==> final(self)@.wf(),
    {
        self.cancel_edit();
        self.current_screen = Screen::Dashboard;
    }

    /// Navigate the menu up.
    pub fn menu_up(&mut self)
        ensures
            final(self)@ == (AppView {
                menu_index: if old(self).menu_index > 0 {
                    (old(self).menu_index - 1) as usize
                } else {
                    old(self).menu_index
                },
                ..old(self)@
            }),
            old(self)@.wf() ==> final(self)@.wf(),
    {
        if self.menu_index > 0 {
            self.menu_index -= 1;
        }
    }

    /// Navigate the menu down, stopping at the last entry.
    pub fn menu_down(&mut self)
        ensures
            final(self)@ == (AppView {
                menu_index: if old(self).menu_index + 1 < old(self).menu_items_count {
                    (old(self).menu_index + 1) as usize
                } else {
                    old(self).menu_index
                },
                ..old(self)@
            }),
            old(self)@.wf() ==> final(self)@.wf(),
    {
        if self.menu_items_count > 0 && self.menu_index < self.menu_items_count - 1 {
            self.menu_index += 1;
        }
    }

    /// Activate the currently highlighted menu item; the last entry quits.
    pub fn menu_select(&mut self)
        ensures
            final(self)@ == (AppView {
                current_screen: AppView::menu_screen(old(self).menu_index),
                should_quit: old(self).should_quit || old(self).menu_index == 5,
                ..old(self)@
            }),
            old(self)@.wf() ==> final(self)@.wf(),
    {
        self.current_screen = if self.menu_index == 0 {
            Screen::VmConfig
        } else if self.menu_index == 1 {
            Screen::Network
        } else if self.menu_index == 2 {
            Screen::Media
        } else if self.menu_index == 3 {
            Screen::Deployment
        } else if self.menu_index == 4 {
            Screen::Help
        } else if self.menu_index == 5 {
            self.should_quit = true;
            Screen::Dashboard
        } else {
            Screen::Dashboard
        };
    }

    /// Returns `true` if the currently focused field on the current screen is a text field.
    pub fn focused_field_is_text(&self) -> (r: bool)
        ensures
            r == self@.focused_text(),
    {
        match self.current_screen {
            Screen::VmConfig => {
                self.selected_node.is_some() && (self.vm_focused_field == VmField::NodeName
                    || self.vm_focused_field == VmField::Role || self.vm_focused_field
                    == VmField::MediaId || self.vm_focused_field == VmField::IpAddress)
            },
            Screen::Network => self.selected_network.is_some(),
            Screen::Dashboard => true,
            Screen::Deployment => true,
            _ => false,
        }
    }

    /// Start editing the value of the currently focused text field.
    /// Does nothing if the focused field is not a text field.
    pub fn start_editing(&mut self)
        ensures
            final(self)@ == (match old(self)@.edit_source() {
                Some(v) => AppView { is_editing: true, editing_value: v, ..old(self)@ },
                None => old(self)@,
            }),
            old(self)@.wf() ==> final(self)@.wf(),
    {
        if !self.focused_field_is_text() {
            return;
        }
        let initial = match self.current_screen {
            Screen::VmConfig => {
                let idx = match self.selected_node {
                    Some(i) => i,
                    None => {
                        return;
                    },
                };
                if idx >= self.lab_config.nodes.len() {
                    return;
                }
                let node = &self.lab_config.nodes[idx];
                proof {
                    assert(self@.lab_config.nodes[idx as int] == node@);
                }
                match self.vm_focused_field {
                    VmField::NodeName => node.node_name.clone(),
                    VmField::Role => node.role.clone(),
                    VmField::MediaId => node.media_id.clone(),
                    VmField::IpAddress => match &node.ip_address {
                        Some(ip) => ip.clone(),
                        None => String::new(),
                    },
                    _ => {
                        return;
                    },
                }
            },
            Screen::Network => {
                let idx = match self.selected_network {
                    Some(i) => i,
                    None => {
                        return;
                    },
                };
                if idx >= self.lab_config.networks.len() {
                    return;
                }
                proof {
                    assert(self@.lab_config.networks[idx as int] == self.lab_config.networks@[idx as int]@);
                }
                self.lab_config.networks[idx].name.clone()
            },
            Screen::Dashboard => self.lab_config.environment_name.clone(),
            _ => self.lab_output_dir.clone(),
        };
        self.editing_value = initial;
        self.is_editing = true;
    }

    /// Append a character to the editing buffer.
    pub fn push_edit_char(&mut self, c: char)
        ensures
            final(self)@ == (if old(self).is_editing {
                AppView { editing_value: old(self)@.editing_value.push(c), ..old(self)@ }
            } else {
                old(self)@
            }),
            old(self)@.wf() ==> final(self)@.wf(),
    {
        if self.is_editing {
            push_char(&mut self.editing_value, c);
        }
    }

    /// Remove the last character from the editing buffer.
    pub fn backspace_edit(&mut self)
        ensures
            final(self)@ == (if old(self).is_editing && old(self)@.editing_value.len() > 0 {
                AppView { editing_value: old(self)@.editing_value.drop_last(), ..old(self)@ }
            } else {
                old(self)@
            }),
            old(self)@.wf() ==> final(self)@.wf(),
    {
        if self.is_editing {
            let _ = pop_char(&mut self.editing_value);
        }
    }

    /// Cancel the current edit without saving.
    pub fn cancel_edit(&mut self)
        ensures
            final(self)@ == (AppView { is_editing: false, editing_value: Seq::empty(), ..old(self)@ }),
            old(self)@.wf() ==> final(self)@.wf(),
    {
        self.is_editing = false;
        self.editing_value = String::new();
    }

    /// Confirm the current edit, saving the value to the appropriate field.
    pub fn confirm_edit(&mut self)
        ensures
            final(self)@ == old(self)@.committed(),
            old(self)@.wf() ==> final(self)@.wf(),
    {
        if !self.is_editing {
            return;
        }
        let mut value = String::new();
        std::mem::swap(&mut value, &mut self.editing_value);
        self.is_editing = false;
        let ghost mid = self@;
        let ghost v = value@;
        proof {
            assert(mid =~= AppView { is_editing: false, editing_value: Seq::empty(), ..old(self)@ });
        }
        let empty = value.as_str().is_empty();
        match self.current_screen {
            Screen::VmConfig => {
                if let Some(idx) = self.selected_node {
                    if idx < self.lab_config.nodes.len() {
                        let field = self.vm_focused_field;
                        let ghost before = self.lab_config.nodes@;
                        let node = &mut self.lab_config.nodes[idx];
                        match field {
                            VmField::NodeName => {
                                if !empty {
                                    node.node_name = value;
                                }
                            },
                            VmField::Role => {
                                node.role = value;
                            },
                            VmField::MediaId => {
                                if !empty {
                                    node.media_id = value;
                                }
                            },
                            VmField::IpAddress => {
                                node.ip_address = if empty {
                                    None
                                } else {
                                    Some(value)
                                };
                            },
                            _ => {},
                        }
                        proof {
                            assert(self.lab_config.nodes@ == before.update(idx as int, self.lab_config.nodes@[idx as int]));
                            assert(self@.lab_config.nodes[idx as int] =~= AppView::node_with_text(
                                mid.lab_config.nodes[idx as int],
                                field,
                                v,
                            ));
                            assert(self@.lab_config.nodes =~= mid.lab_config.nodes.update(
                                idx as int,
                                AppView::node_with_text(mid.lab_config.nodes[idx as int], field, v),
                            ));
                            assert(self@ =~= mid.save_text(v));
                        }
                    }
                }
            },
            Screen::Network => {
                if let Some(idx) = self.selected_network {
                    if idx < self.lab_config.networks.len() && !empty {
                        let ghost before = self.lab_config.networks@;
                        let sw = &mut self.lab_config.networks[idx];
                        sw.name = value;
                        proof {
                            assert(self@.lab_config.networks =~= mid.lab_config.networks.update(
                                idx as int,
                                SwitchView { name: v, ..mid.lab_config.networks[idx as int] },
                            ));
                            assert(self@ =~= mid.save_text(v));
                        }
                    }
                }
            },
            Screen::Dashboard => {
                if !empty {
                    self.lab_config.environment_name = value.clone();
                    self.deployment.environment_name = value;
                    proof {
                        assert(self@ =~= mid.save_text(v));
                    }
                }
            },
            Screen::Deployment => {
                if !empty {
                    self.lab_output_dir = value;
                }
            },
            _ => {},
        }
    }

    /// Move the node selection up.
    pub fn node_up(&mut self)
        ensures
            final(self)@ == (AppView {
                selected_node: AppView::select_up(old(self).selected_node, old(self)@.lab_config.nodes.len()),
                ..old(self)@
            }),
            old(self)@.wf() ==> final(self)@.wf(),
    {
        match self.selected_node {
            Some(idx) => {
                if idx > 0 {
                    self.selected_node = Some(idx - 1);
                }
            },
            None => {
                if self.lab_config.nodes.len() > 0 {
                    self.selected_node = Some(0);
                }
            },
        }
    }

    /// Move the node selection down.
    pub fn node_down(&mut self)
        ensures
            final(self)@ == (AppView {
                selected_node: AppView::select_down(old(self).selected_node, old(self)@.lab_config.nodes.len()),
                ..old(self)@
            }),
            old(self)@.wf() ==> final(self)@.wf(),
    {
        let len = self.lab_config.nodes.len();
        if len == 0 {
            return;
        }
        match self.selected_node {
            None => {
                self.selected_node = Some(0);
            },
            Some(idx) => {
                if idx < len - 1 {
                    self.selected_node = Some(idx + 1);
                }
            },
        }
    }

    /// Add a new node after the existing ones and select it.
    pub fn add_node(&mut self)
        requires
            old(self)@.lab_config.nodes.len() < usize::MAX,
        ensures
            final(self)@ == (AppView {
                lab_config: LabView {
                    nodes: old(self)@.lab_config.nodes.push(
                        vm_config::new_node_view(old(self).lab_config.nodes.len() as nat),
                    ),
                    ..old(self)@.lab_config
                },
                selected_node: Some(old(self).lab_config.nodes.len()),
                ..old(self)@
            }),
            old(self)@.wf() ==> final(self)@.wf(),
    {
        let idx = self.lab_config.nodes.len();
        let node = new_node(idx);
        let ghost before = self@.lab_config.nodes;
        let ghost nv = node@;
        self.lab_config.nodes.push(node);
        self.selected_node = Some(idx);
        proof {
            lemma_new_node_wf(idx as nat);
            assert(self@.lab_config.nodes =~= before.push(nv));
        }
    }

    /// Remove the selected node and select the one before it.
    pub fn delete_selected_node(&mut self)
        ensures
            final(self)@ == (match old(self).selected_node {
                Some(i) => if i < old(self).lab_config.nodes.len() {
                    AppView {
                        lab_config: LabView {
                            nodes: old(self)@.lab_config.nodes.remove(i as int),
                            ..old(self)@.lab_config
                        },
                        selected_node: AppView::select_after_delete(i, old(self).lab_config.nodes.len() as nat),
                        ..old(self)@
                    }
                } else {
                    old(self)@
                },
                None => old(self)@,
            }),
            old(self)@.wf() ==> final(self)@.wf(),
    {
        if let Some(idx) = self.selected_node {
            if idx < self.lab_config.nodes.len() {
                let ghost before = self@.lab_config.nodes;
                let _ = self.lab_config.nodes.remove(idx);
                proof {
                    assert(self@.lab_config.nodes =~= before.remove(idx as int));
                }
                self.selected_node = if self.lab_config.nodes.len() == 0 {
                    None
                } else if idx == 0 {
                    Some(0)
                } else {
                    Some(idx - 1)
                };
            }
        }
    }

    /// Cycle the field focus forward (confirming any active edit first).
    pub fn vm_field_next(&mut self)
        ensures
            final(self)@ == (AppView {
                vm_focused_field: vm_config::next_field(old(self).vm_focused_field),
                ..old(self)@.committed()
            }),
            old(self)@.wf() ==> final(self)@.wf(),
    {
        if self.is_editing {
            self.confirm_edit();
        }
        self.vm_focused_field = match self.vm_focused_field {
            VmField::NodeName => VmField::Role,
            VmField::Role => VmField::CpuCount,
            VmField::CpuCount => VmField::StartMemory,
            VmField::StartMemory => VmField::MinMemory,
            VmField::MinMemory => VmField::MaxMemory,
            VmField::MaxMemory => VmField::MediaId,
            VmField::MediaId => VmField::IpAddress,
            VmField::IpAddress => VmField::NodeName,
        };
    }

    /// Cycle the field focus backward (confirming any active edit first).
    pub fn vm_field_prev(&mut self)
        ensures
            final(self)@ == (AppView {
                vm_focused_field: vm_config::prev_field(old(self).vm_focused_field),
                ..old(self)@.committed()
            }),
            old(self)@.wf() ==> final(self)@.wf(),
    {
        if self.is_editing {
            self.confirm_edit();
        }
        self.vm_focused_field = match self.vm_focused_field {
            VmField::NodeName => VmField::IpAddress,
            VmField::Role => VmField::NodeName,
            VmField::CpuCount => VmField::Role,
            VmField::StartMemory => VmField::CpuCount,
            VmField::MinMemory => VmField::StartMemory,
            VmField::MaxMemory => VmField::MinMemory,
            VmField::MediaId => VmField::MaxMemory,
            VmField::IpAddress => VmField::MediaId,
        };
    }

    /// Increment the focused numeric field of the selected node.
    pub fn vm_field_increment(&mut self)
        ensures
            final(self)@ == (match old(self).selected_node {
                Some(i) => if i < old(self).lab_config.nodes.len() {
                    old(self)@.with_node(
                        i as int,
                        node_incremented(old(self)@.lab_config.nodes[i as int], old(self).vm_focused_field),
                    )
                } else {
                    old(self)@
                },
                None => old(self)@,
            }),
            old(self)@.wf() ==> final(self)@.wf(),
    {
        if let Some(idx) = self.selected_node {
            if idx < self.lab_config.nodes.len() {
                let field = self.vm_focused_field;
                let ghost before = self@;
                let node = &mut self.lab_config.nodes[idx];
                let step: u64 = 512 * MIB;
                let cap: u64 = 64 * GIB;
                match field {
                    VmField::CpuCount => {
                        node.cpu_count = if node.cpu_count < 64 {
                            node.cpu_count + 1
                        } else {
                            64
                        };
                    },
                    VmField::StartMemory => {
                        node.start_up_memory_bytes = if node.start_up_memory_bytes <= cap - step {
                            node.start_up_memory_bytes + step
                        } else {
                            cap
                        };
                    },
                    VmField::MinMemory => {
                        node.minimum_memory_bytes = if node.minimum_memory_bytes <= cap - step {
                            node.minimum_memory_bytes + step
                        } else {
                            cap
                        };
                    },
                    VmField::MaxMemory => {
                        node.maximum_memory_bytes = if node.maximum_memory_bytes <= cap - step {
                            node.maximum_memory_bytes + step
                        } else {
                            cap
                        };
                    },
                    _ => {},
                }
                proof {
                    assert(self@.lab_config.nodes[idx as int] =~= node_incremented(
                        before.lab_config.nodes[idx as int],
                        field,
                    ));
                    assert(self@.lab_config.nodes =~= before.lab_config.nodes.update(
                        idx as int,
                        node_incremented(before.lab_config.nodes[idx as int], field),
                    ));
                    assert(self@ =~= before.with_node(
                        idx as int,
                        node_incremented(before.lab_config.nodes[idx as int], field),
                    ));
                }
            }
        }
    }

    /// Decrement the focused numeric field of the selected node.
    pub fn vm_field_decrement(&mut self)
        ensures
            final(self)@ == (match old(self).selected_node {
                Some(i) => if i < old(self).lab_config.nodes.len() {
                    old(self)@.with_node(
                        i as int,
                        node_decremented(old(self)@.lab_config.nodes[i as int], old(self).vm_focused_field),
                    )
                } else {
                    old(self)@
                },
                None => old(self)@,
            }),
            old(self)@.wf() ==> final(self)@.wf(),
    {
        if let Some(idx) = self.selected_node {
            if idx < self.lab_config.nodes.len() {
                let field = self.vm_focused_field;
                let ghost before = self@;
                let node = &mut self.lab_config.nodes[idx];
                let step: u64 = 512 * MIB;
                match field {
                    VmField::CpuCount => {
                        if node.cpu_count > 1 {
                            node.cpu_count -= 1;
                        }
                    },
                    VmField::StartMemory => {
                        let lowered = node.start_up_memory_bytes.saturating_sub(step);
                        node.start_up_memory_bytes = if lowered >= step {
                            lowered
                        } else {
                            step
                        };
                    },
                    VmField::MinMemory => {
                        let lowered = node.minimum_memory_bytes.saturating_sub(step);
                        node.minimum_memory_bytes = if lowered >= 256 * MIB {
                            lowered
                        } else {
                            256 * MIB
                        };
                    },
                    VmField::MaxMemory => {
                        let lowered = node.maximum_memory_bytes.saturating_sub(step);
                        node.maximum_memory_bytes = if lowered >= step {
                            lowered
                        } else {
                            step
                        };
                    },
                    _ => {},
                }
                proof {
                    assert(self@.lab_config.nodes[idx as int] =~= node_decremented(
                        before.lab_config.nodes[idx as int],
                        field,
                    ));
                    assert(self@.lab_config.nodes =~= before.lab_config.nodes.update(
                        idx as int,
                        node_decremented(before.lab_config.nodes[idx as int], field),
                    ));
                    assert(self@ =~= before.with_node(
                        idx as int,
                        node_decremented(before.lab_config.nodes[idx as int], field),
                    ));
                }
            }
        }
    }

    /// Move the switch selection up.
    pub fn network_up(&mut self)
        ensures
            final(self)@ == (AppView {
                selected_network: AppView::select_up(
                    old(self).selected_network,
                    old(self)@.lab_config.networks.len(),
                ),
                ..old(self)@
            }),
            old(self)@.wf() ==> final(self)@.wf(),
    {
        match self.selected_network {
            Some(idx) => {
                if idx > 0 {
                    self.selected_network = Some(idx - 1);
                }
            },
            None => {
                if self.lab_config.networks.len() > 0 {
                    self.selected_network = Some(0);
                }
            },
        }
    }

    /// Move the switch selection down.
    pub fn network_down(&mut self)
        ensures
            final(self)@ == (AppView {
                selected_network: AppView::select_down(
                    old(self).selected_network,
                    old(self)@.lab_config.networks.len(),
                ),
                ..old(self)@
            }),
            old(self)@.wf() ==> final(self)@.wf(),
    {
        let len = self.lab_config.networks.len();
        if len == 0 {
            return;
        }
        match self.selected_network {
            None => {
                self.selected_network = Some(0);
            },
            Some(idx) => {
                if idx < len - 1 {
                    self.selected_network = Some(idx + 1);
                }
            },
        }
    }

    /// Add a new switch after the existing ones and select it.
    pub fn add_network(&mut self)
        requires
            old(self)@.lab_config.networks.len() < usize::MAX,
        ensures
            final(self)@ == (AppView {
                lab_config: LabView {
                    networks: old(self)@.lab_config.networks.push(
                        SwitchView {
                            name: network::new_switch_name(old(self).lab_config.networks.len() as nat),
                            switch_type: config::SwitchType::Internal,
                            allow_management_os: true,
                        },
                    ),
                    ..old(self)@.lab_config
                },
                selected_network: Some(old(self).lab_config.networks.len()),
                ..old(self)@
            }),
            old(self)@.wf() ==> final(self)@.wf(),
    {
        let idx = self.lab_config.networks.len();
        let sw = new_switch(idx);
        let ghost before = self@.lab_config.networks;
        let ghost sv = sw@;
        self.lab_config.networks.push(sw);
        self.selected_network = Some(idx);
        proof {
            reveal_strlit("LabSwitch");
            assert(self@.lab_config.networks =~= before.push(sv));
        }
    }

    /// Remove the selected switch and select the one before it.
    pub fn delete_selected_network(&mut self)
        ensures
            final(self)@ == (match old(self).selected_network {
                Some(i) => if i < old(self).lab_config.networks.len() {
                    AppView {
                        lab_config: LabView {
                            networks: old(self)@.lab_config.networks.remove(i as int),
                            ..old(self)@.lab_config
                        },
                        selected_network: AppView::select_after_delete(
                            i,
                            old(self).lab_config.networks.len() as nat,
                        ),
                        ..old(self)@
                    }
                } else {
                    old(self)@
                },
                None => old(self)@,
            }),
            old(self)@.wf() ==> final(self)@.wf(),
    {
        if let Some(idx) = self.selected_network {
            if idx < self.lab_config.networks.len() {
                let ghost before = self@.lab_config.networks;
                let _ = self.lab_config.networks.remove(idx);
                proof {
                    assert(self@.lab_config.networks =~= before.remove(idx as int));
                }
                self.selected_network = if self.lab_config.networks.len() == 0 {
                    None
                } else if idx == 0 {
                    Some(0)
                } else {
                    Some(idx - 1)
                };
            }
        }
    }

    /// Cycle the type of the selected switch.
    pub fn toggle_switch_type(&mut self)
        ensures
            final(self)@ == (match old(self).selected_network {
                Some(i) => if i < old(self).lab_config.networks.len() {
                    old(self)@.with_network(
                        i as int,
                        SwitchView {
                            switch_type: network::next_switch_type(
                                old(self)@.lab_config.networks[i as int].switch_type,
                            ),
                            ..old(self)@.lab_config.networks[i as int]
                        },
                    )
                } else {
                    old(self)@
                },
                None => old(self)@,
            }),
            old(self)@.wf() ==> final(self)@.wf(),
    {
        if let Some(idx) = self.selected_network {
            if idx < self.lab_config.networks.len() {
                let ghost before = self@;
                cycle_switch_type(&mut self.lab_config.networks[idx]);
                proof {
                    assert(self@.lab_config.networks =~= before.lab_config.networks.update(
                        idx as int,
                        SwitchView {
                            switch_type: network::next_switch_type(
                                before.lab_config.networks[idx as int].switch_type,
                            ),
                            ..before.lab_config.networks[idx as int]
                        },
                    ));
                }
            }
        }
    }

    /// Move the media selection up.
    pub fn media_up(&mut self)
        ensures
            final(self)@ == (AppView {
                selected_media: Some(
                    match old(self).selected_media {
                        Some(i) => if i > 0 {
                            (i - 1) as usize
                        } else {
                            0
                        },
                        None => 0,
                    },
                ),
                ..old(self)@
            }),
            old(self)@.wf() ==> final(self)@.wf(),
    {
        let len = default_media_list().len();
        if len == 0 {
            return;
        }
        self.selected_media = Some(
            match self.selected_media {
                None => 0,
                Some(i) => if i == 0 {
                    0
                } else {
                    i - 1
                },
            },
        );
    }

    /// Move the media selection down, stopping at the last entry.
    pub fn media_down(&mut self)
        ensures
            final(self)@ == (AppView {
                selected_media: Some(
                    match old(self).selected_media {
                        Some(i) => if i + 1 < media_count() {
                            (i + 1) as usize
                        } else {
                            i
                        },
                        None => 0,
                    },
                ),
                ..old(self)@
            }),
            old(self)@.wf() ==> final(self)@.wf(),
    {
        let len = default_media_list().len();
        if len == 0 {
            return;
        }
        self.selected_media = Some(
            match self.selected_media {
                None => 0,
                Some(i) => if i < len - 1 {
                    i + 1
                } else {
                    i
                },
            },
        );
    }

    /// Assign the selected media to the selected node.
    pub fn assign_media_to_node(&mut self)
        ensures
            final(self)@ == (match (old(self).selected_media, old(self).selected_node) {
                (Some(m), Some(n)) => if m < media_count() && n < old(self).lab_config.nodes.len() {
                    old(self)@.with_node(
                        n as int,
                        NodeView {
                            media_id: config::builtin_media()[m as int].id,
                            ..old(self)@.lab_config.nodes[n as int]
                        },
                    )
                } else {
                    old(self)@
                },
                _ => old(self)@,
            }),
            old(self)@.wf() ==> final(self)@.wf(),
    {
        let media_list = default_media_list();
        if let (Some(m_idx), Some(n_idx)) = (self.selected_media, self.selected_node) {
            if m_idx < media_list.len() && n_idx < self.lab_config.nodes.len() {
                let ghost before = self@;
                let id = media_list[m_idx].id.clone();
                proof {
                    assert(config::media_view(media_list@)[m_idx as int].id == id@);
                    lemma_builtin_media_ids_non_empty();
                }
                let node = &mut self.lab_config.nodes[n_idx];
                node.media_id = id;
                proof {
                    assert(self@.lab_config.nodes =~= before.lab_config.nodes.update(
                        n_idx as int,
                        NodeView {
                            media_id: config::builtin_media()[m_idx as int].id,
                            ..before.lab_config.nodes[n_idx as int]
                        },
                    ));
                }
            }
        }
    }

    /// Move the deployment action selection up.
    pub fn action_up(&mut self)
        ensures
            final(self)@ == (AppView {
                selected_action: if old(self).selected_action > 0 {
                    (old(self).selected_action - 1) as usize
                } else {
                    old(self).selected_action
                },
                ..old(self)@
            }),
            old(self)@.wf() ==> final(self)@.wf(),
    {
        if self.selected_action > 0 {
            self.selected_action -= 1;
        }
    }

    /// Move the deployment action selection down, stopping at the last action.
    pub fn action_down(&mut self)
        ensures
            final(self)@ == (AppView {
                selected_action: if old(self).selected_action + 1 < ACTION_COUNT {
                    (old(self).selected_action + 1) as usize
                } else {
                    old(self).selected_action
                },
                ..old(self)@
            }),
            old(self)@.wf() ==> final(self)@.wf(),
    {
        if self.selected_action < ACTION_COUNT - 1 {
            self.selected_action += 1;
        }
    }
}

} // verus!
