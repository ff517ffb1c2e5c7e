//! Generation of the Lability configuration-data file (`.psd1`) and of the
//! DSC configuration script (`.ps1`) from a lab configuration.

use vstd::prelude::*;
use crate::lability::config::{
    self, AdapterView, LabConfig, LabView, ModuleView, NetworkAdapter, NodeConfig, NodeView, SwitchView,
    VirtualSwitch, SwitchType, GIB, MIB,
};
use crate::text::{self, decimal_string, push_decimal, push_padded, push_quoted_list};

verus! {

/// The PowerShell memory expression for a byte count: whole gibibytes as
/// `<n>GB`, else whole mebibytes as `<n>MB`, else the plain byte count.
pub open spec fn ps_memory(bytes: u64) -> Seq<char> {
    if bytes >= GIB && bytes % GIB == 0 {
        text::decimal((bytes / GIB) as nat) + "GB"@
    } else if bytes >= MIB && bytes % MIB == 0 {
        text::decimal((bytes / MIB) as nat) + "MB"@
    } else {
        text::decimal(bytes as nat)
    }
}

/// Convert a byte count to a PowerShell memory expression, e.g. `2GB`, `512MB`.
pub fn bytes_to_ps_memory(bytes: u64) -> (r: String)
    ensures
        r@ == ps_memory(bytes),
{
    if bytes >= GIB && bytes % GIB == 0 {
        let mut s = decimal_string(bytes / GIB);
        s.append("GB");
        s
    } else if bytes >= MIB && bytes % MIB == 0 {
        let mut s = decimal_string(bytes / MIB);
        s.append("MB");
        s
    } else {
        decimal_string(bytes)
    }
}

/// A memory expression never rounds: a figure in GB or MB times its unit
/// is exactly the byte count, and other counts are written in bytes.
pub proof fn lemma_ps_memory_exact(bytes: u64)
    ensures
        (ps_memory(bytes) == text::decimal((bytes / GIB) as nat) + "GB"@ && (bytes / GIB) * GIB == bytes)
            || (ps_memory(bytes) == text::decimal((bytes / MIB) as nat) + "MB"@ && (bytes / MIB) * MIB
            == bytes) || ps_memory(bytes) == text::decimal(bytes as nat),
{
    if bytes >= GIB && bytes % GIB == 0 {
        vstd::arithmetic::div_mod::lemma_fundamental_div_mod(bytes as int, GIB as int);
    } else if bytes >= MIB && bytes % MIB == 0 {
        vstd::arithmetic::div_mod::lemma_fundamental_div_mod(bytes as int, MIB as int);
    }
}

/// The names of the switches that the adapters attach to.
pub open spec fn switch_names(adapters: Seq<AdapterView>) -> Seq<Seq<char>> {
    adapters.map_values(|a: AdapterView| a.switch_name)
}

/// The `IPAddress` line of a node, present only for a non-empty address.
pub open spec fn ip_line(ip: Option<Seq<char>>) -> Seq<char> {
    match ip {
        Some(s) => if s.len() > 0 {
            "            IPAddress                   = '"@ + s + "';\n"@
        } else {
            Seq::empty()
        },
        None => Seq::empty(),
    }
}

/// One line of custom configuration data, the key padded to 35 characters.
pub open spec fn custom_line(entry: (Seq<char>, Seq<char>)) -> Seq<char> {
    "            "@ + text::pad_right(entry.0, 35) + " = '"@ + entry.1 + "';\n"@
}

/// The first part of a node block: name, switches, media and processors.
pub open spec fn psd1_node_head(n: NodeView) -> Seq<char> {
    "        @{\n"@
        + "            NodeName                    = '"@ + n.node_name + "';\n"@
        + "            Lability_SwitchName         = @( "@ + text::quoted_list(switch_names(n.network_adapters)) + " );\n"@
        + "            Lability_Media              = '"@ + n.media_id + "';\n"@
        + "            Lability_ProcessorCount     = "@ + text::decimal(n.cpu_count as nat) + ";\n"@
}

/// The memory lines of a node block.
pub open spec fn psd1_node_memory(n: NodeView) -> Seq<char> {
    "            Lability_StartupMemory      = "@ + ps_memory(n.start_up_memory_bytes) + ";\n"@
        + "            Lability_MinimumMemory      = "@ + ps_memory(n.minimum_memory_bytes) + ";\n"@
        + "            Lability_MaximumMemory      = "@ + ps_memory(n.maximum_memory_bytes) + ";\n"@
}

/// The entry of one node in `AllNodes`.
pub open spec fn psd1_node(n: NodeView) -> Seq<char> {
    psd1_node_head(n) + psd1_node_memory(n) + ip_line(n.ip_address)
        + "            PSDscAllowPlainTextPassword = $true;\n"@
        + "            PSDscAllowDomainUser        = $true;\n"@
        + n.custom_data.map_values(|e: (Seq<char>, Seq<char>)| custom_line(e)).flatten()
        + "        }\n"@
}

/// The PowerShell literal for a boolean.
pub open spec fn ps_bool(b: bool) -> Seq<char> {
    if b {
        "$true"@
    } else {
        "$false"@
    }
}

/// The entry of one virtual switch in the `Network` list.
pub open spec fn psd1_network(s: SwitchView) -> Seq<char> {
    "                @{\n"@
        + "                    Name              = '"@ + s.name + "';\n"@
        + "                    Type              = '"@ + config::switch_type_name(s.switch_type) + "';\n"@
        + "                    AllowManagementOS = "@ + ps_bool(s.allow_management_os) + ";\n"@
        + "                }\n"@
}

/// The whole configuration-data file of a lab.
pub open spec fn psd1_text(c: LabView) -> Seq<char> {
    "@{\n"@ + "    AllNodes = @(\n"@
        + c.nodes.map_values(|n: NodeView| psd1_node(n)).flatten()
        + "    );\n"@ + "    NonNodeData = @{\n"@ + "        Lability = @{\n"@
        + "            EnvironmentPrefix = '"@ + c.environment_name + "';\n"@
        + "            Media             = @();\n"@
        + "            Network           = @(\n"@
        + c.networks.map_values(|s: SwitchView| psd1_network(s)).flatten()
        + "            );\n"@ + "        };\n"@ + "    };\n"@ + "}\n"@
}

/// Where the block of node `i` starts in the configuration-data file: after
/// the file header and the blocks of the nodes before it.
pub open spec fn psd1_node_start(c: LabView, i: int) -> int {
    (("@{\n"@ + "    AllNodes = @(\n"@).len() + c.nodes.take(i).map_values(|n: NodeView| psd1_node(n)).flatten().len()) as int
}

/// The file header, then the node blocks one after another.
proof fn lemma_psd1_layout(c: LabView)
    ensures
        text::occurs_at(
            psd1_text(c),
            ("@{\n"@ + "    AllNodes = @(\n"@).len() as int,
            c.nodes.map_values(|n: NodeView| psd1_node(n)).flatten(),
        ),
{
    let h = "@{\n"@ + "    AllNodes = @(\n"@;
    let flat = c.nodes.map_values(|n: NodeView| psd1_node(n)).flatten();
    let p = h.len() as int;
    text::lemma_occurs_at_end(h, flat);
    let a1 = h + flat;
    text::lemma_occurs_extend(a1, "    );\n"@, p, flat);
    let a2 = a1 + "    );\n"@;
    text::lemma_occurs_extend(a2, "    NonNodeData = @{\n"@, p, flat);
    let a3 = a2 + "    NonNodeData = @{\n"@;
    text::lemma_occurs_extend(a3, "        Lability = @{\n"@, p, flat);
    let a4 = a3 + "        Lability = @{\n"@;
    text::lemma_occurs_extend(a4, "            EnvironmentPrefix = '"@, p, flat);
    let a5 = a4 + "            EnvironmentPrefix = '"@;
    text::lemma_occurs_extend(a5, c.environment_name, p, flat);
    let a6 = a5 + c.environment_name;
    text::lemma_occurs_extend(a6, "';\n"@, p, flat);
    let a7 = a6 + "';\n"@;
    text::lemma_occurs_extend(a7, "            Media             = @();\n"@, p, flat);
    let a8 = a7 + "            Media             = @();\n"@;
    text::lemma_occurs_extend(a8, "            Network           = @(\n"@, p, flat);
    let a9 = a8 + "            Network           = @(\n"@;
    let nets = c.networks.map_values(|s: SwitchView| psd1_network(s)).flatten();
    text::lemma_occurs_extend(a9, nets, p, flat);
    let a10 = a9 + nets;
    text::lemma_occurs_extend(a10, "            );\n"@, p, flat);
    let a11 = a10 + "            );\n"@;
    text::lemma_occurs_extend(a11, "        };\n"@, p, flat);
    let a12 = a11 + "        };\n"@;
    text::lemma_occurs_extend(a12, "    };\n"@, p, flat);
    let a13 = a12 + "    };\n"@;
    text::lemma_occurs_extend(a13, "}\n"@, p, flat);
    assert(psd1_text(c) == a13 + "}\n"@);
}

/// A node's block, spelled out.
proof fn lemma_psd1_block_text(n: NodeView)
    ensures
        psd1_node(n) == "        @{\n"@
            + "            NodeName                    = '"@ + n.node_name + "';\n"@
            + "            Lability_SwitchName         = @( "@
            + text::quoted_list(n.network_adapters.map_values(|a: AdapterView| a.switch_name))
            + " );\n"@
            + "            Lability_Media              = '"@ + n.media_id + "';\n"@
            + "            Lability_ProcessorCount     = "@ + text::decimal(n.cpu_count as nat) + ";\n"@
            + "            Lability_StartupMemory      = "@ + ps_memory(n.start_up_memory_bytes) + ";\n"@
            + "            Lability_MinimumMemory      = "@ + ps_memory(n.minimum_memory_bytes) + ";\n"@
            + "            Lability_MaximumMemory      = "@ + ps_memory(n.maximum_memory_bytes) + ";\n"@
            + (match n.ip_address {
                Some(ip) => if ip.len() > 0 {
                    "            IPAddress                   = '"@ + ip + "';\n"@
                } else {
                    Seq::empty()
                },
                None => Seq::empty(),
            })
            + "            PSDscAllowPlainTextPassword = $true;\n"@
            + "            PSDscAllowDomainUser        = $true;\n"@
            + n.custom_data.map_values(
                |e: (Seq<char>, Seq<char>)| "            "@ + text::pad_right(e.0, 35) + " = '"@ + e.1 + "';\n"@,
            ).flatten()
            + "        }\n"@,
{
    assert(switch_names(n.network_adapters) == n.network_adapters.map_values(|a: AdapterView| a.switch_name));
    assert(n.custom_data.map_values(|e: (Seq<char>, Seq<char>)| custom_line(e)) =~= n.custom_data.map_values(
        |e: (Seq<char>, Seq<char>)| "            "@ + text::pad_right(e.0, 35) + " = '"@ + e.1 + "';\n"@,
    ));
    assert(psd1_node(n) =~= "        @{\n"@
            + "            NodeName                    = '"@ + n.node_name + "';\n"@
            + "            Lability_SwitchName         = @( "@
            + text::quoted_list(n.network_adapters.map_values(|a: AdapterView| a.switch_name))
            + " );\n"@
            + "            Lability_Media              = '"@ + n.media_id + "';\n"@
            + "            Lability_ProcessorCount     = "@ + text::decimal(n.cpu_count as nat) + ";\n"@
            + "            Lability_StartupMemory      = "@ + ps_memory(n.start_up_memory_bytes) + ";\n"@
            + "            Lability_MinimumMemory      = "@ + ps_memory(n.minimum_memory_bytes) + ";\n"@
            + "            Lability_MaximumMemory      = "@ + ps_memory(n.maximum_memory_bytes) + ";\n"@
            + (match n.ip_address {
                Some(ip) => if ip.len() > 0 {
                    "            IPAddress                   = '"@ + ip + "';\n"@
                } else {
                    Seq::empty()
                },
                None => Seq::empty(),
            })
            + "            PSDscAllowPlainTextPassword = $true;\n"@
            + "            PSDscAllowDomainUser        = $true;\n"@
            + n.custom_data.map_values(
                |e: (Seq<char>, Seq<char>)| "            "@ + text::pad_right(e.0, 35) + " = '"@ + e.1 + "';\n"@,
            ).flatten()
            + "        }\n"@);
}

/// The configuration-data file holds one block per node, in the order of
/// the nodes, the blocks following one another right after the header;
/// the block of node `i` is made of that node's own name, switches, media,
/// processor count, memory, IP address (when it has a non-empty one) and
/// custom data (the key padded to 35 characters), and nothing else.
pub proof fn lemma_psd1_node_blocks(c: LabView, i: int)
    requires
        0 <= i < c.nodes.len(),
    ensures
        psd1_node_start(c, 0) == ("@{\n"@ + "    AllNodes = @(\n"@).len() as int,
        psd1_node_start(c, i) < psd1_node_start(c, i + 1),
        psd1_node_start(c, i + 1) <= psd1_node_start(c, c.nodes.len() as int),
        psd1_node_start(c, c.nodes.len() as int) <= psd1_text(c).len(),
        psd1_text(c).subrange(psd1_node_start(c, i), psd1_node_start(c, i + 1)) == "        @{\n"@
                + "            NodeName                    = '"@ + c.nodes[i].node_name + "';\n"@
                + "            Lability_SwitchName         = @( "@
                + text::quoted_list(c.nodes[i].network_adapters.map_values(|a: AdapterView| a.switch_name))
                + " );\n"@
                + "            Lability_Media              = '"@ + c.nodes[i].media_id + "';\n"@
                + "            Lability_ProcessorCount     = "@ + text::decimal(c.nodes[i].cpu_count as nat) + ";\n"@
                + "            Lability_StartupMemory      = "@ + ps_memory(c.nodes[i].start_up_memory_bytes) + ";\n"@
                + "            Lability_MinimumMemory      = "@ + ps_memory(c.nodes[i].minimum_memory_bytes) + ";\n"@
                + "            Lability_MaximumMemory      = "@ + ps_memory(c.nodes[i].maximum_memory_bytes) + ";\n"@
                + (match c.nodes[i].ip_address {
                    Some(ip) => if ip.len() > 0 {
                        "            IPAddress                   = '"@ + ip + "';\n"@
                    } else {
                        Seq::empty()
                    },
                    None => Seq::empty(),
                })
                + "            PSDscAllowPlainTextPassword = $true;\n"@
                + "            PSDscAllowDomainUser        = $true;\n"@
                + c.nodes[i].custom_data.map_values(
                    |e: (Seq<char>, Seq<char>)| "            "@ + text::pad_right(e.0, 35) + " = '"@ + e.1 + "';\n"@,
                ).flatten()
                + "        }\n"@,
{
    let h = "@{\n"@ + "    AllNodes = @(\n"@;
    let blocks = c.nodes.map_values(|n: NodeView| psd1_node(n));
    let flat = blocks.flatten();
    let t = psd1_text(c);
    let n = c.nodes[i];
    let block = psd1_node(n);
    assert(blocks[i] == block);
    text::lemma_flatten_part(blocks, i);
    assert(c.nodes.take(i).map_values(|n: NodeView| psd1_node(n)) =~= blocks.take(i));
    assert(c.nodes.take(i + 1).map_values(|n: NodeView| psd1_node(n)) =~= blocks.take(i + 1));
    assert(c.nodes.take(c.nodes.len() as int) =~= c.nodes);
    assert(c.nodes.take(0).map_values(|n: NodeView| psd1_node(n)) =~= Seq::<Seq<char>>::empty());
    reveal_strlit("        @{\n");
    assert(block.len() > 0);
    lemma_psd1_layout(c);
    let o = blocks.take(i).flatten().len() as int;
    assert(text::occurs_at(flat, o, block));
    text::lemma_occurs_within(t, h.len() as int, flat, o, block);
    lemma_psd1_block_text(n);
}

/// The part of the configuration-data file between the node blocks and the
/// switch blocks.
pub open spec fn psd1_middle(c: LabView) -> Seq<char> {
    "    );\n"@ + "    NonNodeData = @{\n"@ + "        Lability = @{\n"@
        + "            EnvironmentPrefix = '"@ + c.environment_name + "';\n"@
        + "            Media             = @();\n"@
        + "            Network           = @(\n"@
}

/// Where the block of switch `j` starts in the configuration-data file:
/// after the node blocks, the lab's own settings and the switches before it.
pub open spec fn psd1_network_start(c: LabView, j: int) -> int {
    (psd1_node_start(c, c.nodes.len() as int) + psd1_middle(c).len() + c.networks.take(j).map_values(
        |s: SwitchView| psd1_network(s),
    ).flatten().len()) as int
}

/// After the node blocks the file names the lab (`EnvironmentPrefix`) and
/// then holds one block per virtual switch, in order, each giving that
/// switch's own name, type and management-OS flag.
pub proof fn lemma_psd1_network_blocks(c: LabView, j: int)
    requires
        0 <= j < c.networks.len(),
    ensures
        text::occurs_at(
            psd1_text(c),
            psd1_node_start(c, c.nodes.len() as int) + ("    );\n"@ + "    NonNodeData = @{\n"@
                + "        Lability = @{\n"@).len(),
            "            EnvironmentPrefix = '"@ + c.environment_name + "';\n"@,
        ),
        psd1_network_start(c, j) < psd1_network_start(c, j + 1),
        psd1_network_start(c, j + 1) <= psd1_network_start(c, c.networks.len() as int),
        psd1_network_start(c, c.networks.len() as int) <= psd1_text(c).len(),
        text::occurs_at(
            psd1_text(c),
            psd1_network_start(c, j),
            "                @{\n"@
                + "                    Name              = '"@ + c.networks[j].name + "';\n"@
                + "                    Type              = '"@ + (match c.networks[j].switch_type {
                    SwitchType::Internal => "Internal"@,
                    SwitchType::External => "External"@,
                    SwitchType::Private => "Private"@,
                }) + "';\n"@
                + "                    AllowManagementOS = "@ + (if c.networks[j].allow_management_os {
                    "$true"@
                } else {
                    "$false"@
                }) + ";\n"@
                + "                }\n"@,
        ),
{
    let t = psd1_text(c);
    let e = psd1_node_start(c, c.nodes.len() as int);
    let mid = psd1_middle(c);
    let nets = c.networks.map_values(|s: SwitchView| psd1_network(s));
    let nflat = nets.flatten();
    lemma_psd1_tail_layout(c);
    let envline = "            EnvironmentPrefix = '"@ + c.environment_name + "';\n"@;
    let before_env = "    );\n"@ + "    NonNodeData = @{\n"@ + "        Lability = @{\n"@;
    let after_env = "            Media             = @();\n"@ + "            Network           = @(\n"@;
    assert(mid =~= before_env + envline + after_env);
    text::lemma_occurs_in_concat(before_env, envline, after_env);
    text::lemma_occurs_within(t, e, mid, before_env.len() as int, envline);
    let sw = c.networks[j];
    assert(nets[j] == psd1_network(sw));
    text::lemma_flatten_part(nets, j);
    assert(c.networks.take(j).map_values(|s: SwitchView| psd1_network(s)) =~= nets.take(j));
    assert(c.networks.take(j + 1).map_values(|s: SwitchView| psd1_network(s)) =~= nets.take(j + 1));
    assert(c.networks.take(c.networks.len() as int) =~= c.networks);
    reveal_strlit("                @{\n");
    let o = nets.take(j).flatten().len() as int;
    assert(text::occurs_at(nflat, o, psd1_network(sw)));
    text::lemma_occurs_within(t, e + mid.len(), nflat, o, psd1_network(sw));
    lemma_psd1_network_whole(sw);
    text::lemma_occurs_within(t, e + mid.len() + o, psd1_network(sw), 0, psd1_network(sw));
}

/// The text of a switch block, spelled out.
proof fn lemma_psd1_network_whole(sw: SwitchView)
    ensures
        psd1_network(sw) == "                @{\n"@
            + "                    Name              = '"@ + sw.name + "';\n"@
            + "                    Type              = '"@ + (match sw.switch_type {
                SwitchType::Internal => "Internal"@,
                SwitchType::External => "External"@,
                SwitchType::Private => "Private"@,
            }) + "';\n"@
            + "                    AllowManagementOS = "@ + (if sw.allow_management_os {
                "$true"@
            } else {
                "$false"@
            }) + ";\n"@
            + "                }\n"@,
        text::occurs_at(psd1_network(sw), 0, psd1_network(sw)),
{
    assert(psd1_network(sw).subrange(0, psd1_network(sw).len() as int) =~= psd1_network(sw));
}

/// After the node blocks come the lab settings, then the switch blocks.
proof fn lemma_psd1_tail_layout(c: LabView)
    ensures
        text::occurs_at(psd1_text(c), psd1_node_start(c, c.nodes.len() as int), psd1_middle(c)),
        text::occurs_at(
            psd1_text(c),
            psd1_node_start(c, c.nodes.len() as int) + psd1_middle(c).len(),
            c.networks.map_values(|s: SwitchView| psd1_network(s)).flatten(),
        ),
{
    let h = "@{\n"@ + "    AllNodes = @(\n"@;
    let flat = c.nodes.map_values(|n: NodeView| psd1_node(n)).flatten();
    let nets = c.networks.map_values(|s: SwitchView| psd1_network(s)).flatten();
    let mid = psd1_middle(c);
    assert(c.nodes.take(c.nodes.len() as int) =~= c.nodes);
    let e = (h + flat).len() as int;
    assert(psd1_node_start(c, c.nodes.len() as int) == e);
    let a1 = h + flat;
    let a2 = a1 + "    );\n"@;
    let a3 = a2 + "    NonNodeData = @{\n"@;
    let a4 = a3 + "        Lability = @{\n"@;
    let a5 = a4 + "            EnvironmentPrefix = '"@;
    let a6 = a5 + c.environment_name;
    let a7 = a6 + "';\n"@;
    let a8 = a7 + "            Media             = @();\n"@;
    let a9 = a8 + "            Network           = @(\n"@;
    assert(a9 =~= a1 + mid);
    text::lemma_occurs_at_end(a1, mid);
    text::lemma_occurs_at_end(a9, nets);
    let m = a9.len() as int;
    let a10 = a9 + nets;
    text::lemma_occurs_extend(a9, nets, e, mid);
    let a11 = a10 + "            );\n"@;
    text::lemma_occurs_extend(a10, "            );\n"@, e, mid);
    text::lemma_occurs_extend(a10, "            );\n"@, m, nets);
    let a12 = a11 + "        };\n"@;
    text::lemma_occurs_extend(a11, "        };\n"@, e, mid);
    text::lemma_occurs_extend(a11, "        };\n"@, m, nets);
    let a13 = a12 + "    };\n"@;
    text::lemma_occurs_extend(a12, "    };\n"@, e, mid);
    text::lemma_occurs_extend(a12, "    };\n"@, m, nets);
    text::lemma_occurs_extend(a13, "}\n"@, e, mid);
    text::lemma_occurs_extend(a13, "}\n"@, m, nets);
    assert(psd1_text(c) == a13 + "}\n"@);
}

fn adapter_switch_names(adapters: &Vec<NetworkAdapter>) -> (r: Vec<String>)
    ensures
        text::strs_view(r@) == switch_names(config::adapters_view(adapters@)),
{
    let mut r: Vec<String> = Vec::new();
    let n = adapters.len();
    let mut i: usize = 0;
    while i < n
        invariant
            n == adapters@.len(),
            i <= n,
            text::strs_view(r@) == switch_names(config::adapters_view(adapters@)).take(i as int),
        decreases n - i,
    {
        let ghost before = text::strs_view(r@);
        r.push(adapters[i].switch_name.clone());
        proof {
            assert(text::strs_view(r@) =~= before.push(adapters@[i as int].switch_name@));
            assert(switch_names(config::adapters_view(adapters@)).take(i + 1) =~= switch_names(
                config::adapters_view(adapters@),
            ).take(i as int).push(adapters@[i as int].switch_name@));
        }
        i = i + 1;
    }
    proof {
        assert(switch_names(config::adapters_view(adapters@)).take(n as int) =~= switch_names(
            config::adapters_view(adapters@),
        ));
    }
    r
}

fn push_node_head(out: &mut String, node: &NodeConfig)
    ensures
        final(out)@ == old(out)@ + psd1_node_head(node@),
{
    out.append("        @{\n");
    out.append("            NodeName                    = '");
    out.append(node.node_name.as_str());
    out.append("';\n");
    out.append("            Lability_SwitchName         = @( ");
    let names = adapter_switch_names(&node.network_adapters);
    push_quoted_list(out, names.as_slice());
    out.append(" );\n");
    out.append("            Lability_Media              = '");
    out.append(node.media_id.as_str());
    out.append("';\n");
    out.append("            Lability_ProcessorCount     = ");
    push_decimal(out, node.cpu_count as u64);
    out.append(";\n");
    proof {
        assert(out@ =~= old(out)@ + psd1_node_head(node@));
    }
}

fn push_node_memory(out: &mut String, node: &NodeConfig)
    ensures
        final(out)@ == old(out)@ + psd1_node_memory(node@),
{
    out.append("            Lability_StartupMemory      = ");
    let m = bytes_to_ps_memory(node.start_up_memory_bytes);
    out.append(m.as_str());
    out.append(";\n");
    out.append("            Lability_MinimumMemory      = ");
    let m = bytes_to_ps_memory(node.minimum_memory_bytes);
    out.append(m.as_str());
    out.append(";\n");
    out.append("            Lability_MaximumMemory      = ");
    let m = bytes_to_ps_memory(node.maximum_memory_bytes);
    out.append(m.as_str());
    out.append(";\n");
    proof {
        assert(out@ =~= old(out)@ + psd1_node_memory(node@));
    }
}

fn push_custom_data(out: &mut String, data: &Vec<(String, String)>)
    ensures
        final(out)@ == old(out)@ + config::pairs_view(data@).map_values(
            |e: (Seq<char>, Seq<char>)| custom_line(e),
        ).flatten(),
{
    let ghost lines = config::pairs_view(data@).map_values(|e: (Seq<char>, Seq<char>)| custom_line(e));
    let n = data.len();
    let mut i: usize = 0;
    while i < n
        invariant
            n == data@.len(),
            i <= n,
            lines == config::pairs_view(data@).map_values(|e: (Seq<char>, Seq<char>)| custom_line(e)),
            out@ == old(out)@ + lines.take(i as int).flatten(),
        decreases n - i,
    {
        let ghost before = out@;
        let entry = &data[i];
        out.append("            ");
        push_padded(out, entry.0.as_str(), 35);
        out.append(" = '");
        out.append(entry.1.as_str());
        out.append("';\n");
        proof {
            assert(lines[i as int] == custom_line((entry.0@, entry.1@)));
            assert(lines.take(i + 1) =~= lines.take(i as int).push(lines[i as int]));
            lines.take(i as int).lemma_flatten_push(lines[i as int]);
            assert(out@ =~= old(out)@ + lines.take(i + 1).flatten());
        }
        i = i + 1;
    }
    proof {
        assert(lines.take(n as int) =~= lines);
    }
}

fn push_node(out: &mut String, node: &NodeConfig)
    ensures
        final(out)@ == old(out)@ + psd1_node(node@),
{
    push_node_head(out, node);
    push_node_memory(out, node);
    let ghost mid = out@;
    match &node.ip_address {
        Some(ip) => {
            if ip.as_str().unicode_len() > 0 {
                out.append("            IPAddress                   = '");
                out.append(ip.as_str());
                out.append("';\n");
            }
        },
        None => {},
    }
    proof {
        assert(out@ =~= mid + ip_line(node@.ip_address));
    }
    out.append("            PSDscAllowPlainTextPassword = $true;\n");
    out.append("            PSDscAllowDomainUser        = $true;\n");
    push_custom_data(out, &node.custom_data);
    out.append("        }\n");
    proof {
        assert(out@ =~= old(out)@ + psd1_node(node@));
    }
}

fn push_network(out: &mut String, sw: &VirtualSwitch)
    ensures
        final(out)@ == old(out)@ + psd1_network(sw@),
{
    out.append("                @{\n");
    out.append("                    Name              = '");
    out.append(sw.name.as_str());
    out.append("';\n");
    out.append("                    Type              = '");
    out.append(sw.switch_type.label());
    out.append("';\n");
    out.append("                    AllowManagementOS = ");
    if sw.allow_management_os {
        out.append("$true");
    } else {
        out.append("$false");
    }
    out.append(";\n");
    out.append("                }\n");
    proof {
        assert(out@ =~= old(out)@ + psd1_network(sw@));
    }
}

/// Generate the Lability configuration-data file (`.psd1`) content from a `LabConfig`.
pub fn generate_psd1(config: &LabConfig) -> (r: String)
    ensures
        r@ == psd1_text(config@),
{
    let mut out = String::new();
    out.append("@{\n");
    out.append("    AllNodes = @(\n");
    let ghost head = out@;
    let ghost blocks = config@.nodes.map_values(|n: NodeView| psd1_node(n));
    let n = config.nodes.len();
    let mut i: usize = 0;
    while i < n
        invariant
            n == config.nodes@.len(),
            i <= n,
            blocks == config@.nodes.map_values(|n: NodeView| psd1_node(n)),
            out@ == head + blocks.take(i as int).flatten(),
        decreases n - i,
    {
        push_node(&mut out, &config.nodes[i]);
        proof {
            assert(blocks[i as int] == psd1_node(config.nodes@[i as int]@));
            assert(blocks.take(i + 1) =~= blocks.take(i as int).push(blocks[i as int]));
            blocks.take(i as int).lemma_flatten_push(blocks[i as int]);
        }
        i = i + 1;
    }
    proof {
        assert(blocks.take(n as int) =~= blocks);
    }
    out.append("    );\n");
    out.append("    NonNodeData = @{\n");
    out.append("        Lability = @{\n");
    out.append("            EnvironmentPrefix = '");
    out.append(config.environment_name.as_str());
    out.append("';\n");
    out.append("            Media             = @();\n");
    out.append("            Network           = @(\n");
    let ghost mid = out@;
    let ghost nets = config@.networks.map_values(|s: SwitchView| psd1_network(s));
    let m = config.networks.len();
    let mut k: usize = 0;
    while k < m
        invariant
            m == config.networks@.len(),
            k <= m,
            nets == config@.networks.map_values(|s: SwitchView| psd1_network(s)),
            out@ == mid + nets.take(k as int).flatten(),
        decreases m - k,
    {
        push_network(&mut out, &config.networks[k]);
        proof {
            assert(nets[k as int] == psd1_network(config.networks@[k as int]@));
            assert(nets.take(k + 1) =~= nets.take(k as int).push(nets[k as int]));
            nets.take(k as int).lemma_flatten_push(nets[k as int]);
        }
        k = k + 1;
    }
    proof {
        assert(nets.take(m as int) =~= nets);
    }
    out.append("            );\n");
    out.append("        };\n");
    out.append("    };\n");
    out.append("}\n");
    proof {
        assert(out@ =~= psd1_text(config@));
    }
    out
}


/// The DSC module that every configuration imports first.
pub open spec fn base_module() -> Seq<char> {
    "PSDesiredStateConfiguration"@
}

/// The import statement of one DSC module.
pub open spec fn import_line(module: Seq<char>) -> Seq<char> {
    "    Import-DscResource -Module "@ + module + "\n"@
}

/// Every DSC module that the lab asks for, in order: the resources of each
/// node, then the lab-level modules.
pub open spec fn requested_modules(c: LabView) -> Seq<Seq<char>> {
    c.nodes.map_values(|n: NodeView| n.dsc_resources).flatten() + c.dsc_modules.map_values(
        |m: ModuleView| m.module_name,
    )
}

/// The items that are not in `seen` and not equal to an earlier item, in
/// order of their first occurrence.
pub open spec fn first_occurrences(seen: Seq<Seq<char>>, items: Seq<Seq<char>>) -> Seq<Seq<char>>
    decreases items.len(),
{
    if items.len() == 0 {
        Seq::empty()
    } else {
        let earlier = first_occurrences(seen, items.drop_last());
        if (seen + earlier).contains(items.last()) {
            earlier
        } else {
            earlier.push(items.last())
        }
    }
}

/// The modules imported after the base module: each requested module once.
pub open spec fn extra_imports(c: LabView) -> Seq<Seq<char>> {
    first_occurrences(seq![base_module()], requested_modules(c))
}

/// The whole DSC configuration script of a lab.
pub open spec fn ps1_text(c: LabView) -> Seq<char> {
    "configuration LabConfiguration {\n\n"@ + import_line(base_module())
        + extra_imports(c).map_values(|m: Seq<char>| import_line(m)).flatten()
        + "\n    Node $AllNodes.NodeName {\n\n"@ + "    }\n\n"@ + "}\n\n"@
        + "LabConfiguration -ConfigurationData '.\\"@ + c.environment_name + ".psd1' -OutputPath '.\\"@
        + c.environment_name + "'\n"@
}

/// Whether `v` holds a string equal to `s`.
fn contains_string(v: &Vec<String>, s: &String) -> (r: bool)
    ensures
        r == text::strs_view(v@).contains(s@),
{
    let n = v.len();
    let mut i: usize = 0;
    while i < n
        invariant
            n == v@.len(),
            i <= n,
            forall|j: int| 0 <= j < i ==> v@[j]@ != s@,
        decreases n - i,
    {
        if v[i] == *s {
            proof {
                assert(text::strs_view(v@)[i as int] == s@);
            }
            return true;
        }
        i = i + 1;
    }
    proof {
        if text::strs_view(v@).contains(s@) {
            let j = choose|j: int| 0 <= j < v@.len() && text::strs_view(v@)[j] == s@;
            assert(v@[j]@ == s@);
        }
    }
    false
}

/// The requested modules of a lab as strings.
fn collect_requested_modules(config: &LabConfig) -> (r: Vec<String>)
    ensures
        text::strs_view(r@) == requested_modules(config@),
{
    let ghost per_node = config@.nodes.map_values(|n: NodeView| n.dsc_resources);
    let mut r: Vec<String> = Vec::new();
    let n = config.nodes.len();
    let mut i: usize = 0;
    while i < n
        invariant
            n == config.nodes@.len(),
            i <= n,
            per_node == config@.nodes.map_values(|n: NodeView| n.dsc_resources),
            text::strs_view(r@) == per_node.take(i as int).flatten(),
        decreases n - i,
    {
        let node = &config.nodes[i];
        let ghost base = text::strs_view(r@);
        let m = node.dsc_resources.len();
        let mut j: usize = 0;
        while j < m
            invariant
                m == node.dsc_resources@.len(),
                j <= m,
                text::strs_view(r@) == base + text::strs_view(node.dsc_resources@).take(j as int),
            decreases m - j,
        {
            let ghost before = text::strs_view(r@);
            r.push(node.dsc_resources[j].clone());
            proof {
                assert(text::strs_view(r@) =~= before.push(node.dsc_resources@[j as int]@));
                assert(text::strs_view(node.dsc_resources@).take(j + 1) =~= text::strs_view(
                    node.dsc_resources@,
                ).take(j as int).push(node.dsc_resources@[j as int]@));
                assert(text::strs_view(r@) =~= base + text::strs_view(node.dsc_resources@).take(
                    j + 1,
                ));
            }
            j = j + 1;
        }
        proof {
            assert(text::strs_view(node.dsc_resources@).take(m as int) =~= text::strs_view(
                node.dsc_resources@,
            ));
            assert(per_node[i as int] == text::strs_view(node.dsc_resources@));
            assert(per_node.take(i + 1) =~= per_node.take(i as int).push(per_node[i as int]));
            per_node.take(i as int).lemma_flatten_push(per_node[i as int]);
        }
        i = i + 1;
    }
    proof {
        assert(per_node.take(n as int) =~= per_node);
    }
    let ghost flat = text::strs_view(r@);
    let ghost names = config@.dsc_modules.map_values(|m: ModuleView| m.module_name);
    let k = config.dsc_modules.len();
    let mut t: usize = 0;
    while t < k
        invariant
            k == config.dsc_modules@.len(),
            t <= k,
            names == config@.dsc_modules.map_values(|m: ModuleView| m.module_name),
            text::strs_view(r@) == flat + names.take(t as int),
        decreases k - t,
    {
        let ghost before = text::strs_view(r@);
        r.push(config.dsc_modules[t].module_name.clone());
        proof {
            assert(text::strs_view(r@) =~= before.push(config.dsc_modules@[t as int].module_name@));
            assert(names.take(t + 1) =~= names.take(t as int).push(names[t as int]));
            assert(text::strs_view(r@) =~= flat + names.take(t + 1));
        }
        t = t + 1;
    }
    proof {
        assert(names.take(k as int) =~= names);
    }
    r
}

/// Generate the DSC configuration script (`.ps1`) content from a `LabConfig`.
pub fn generate_ps1(config: &LabConfig) -> (r: String)
    ensures
        r@ == ps1_text(config@),
{
    let mut out = String::new();
    out.append("configuration LabConfiguration {\n\n");
    out.append("    Import-DscResource -Module ");
    out.append("PSDesiredStateConfiguration");
    out.append("\n");
    let ghost head = out@;
    let requested = collect_requested_modules(config);
    let ghost req = text::strs_view(requested@);
    let ghost seed = seq![base_module()];
    let mut seen: Vec<String> = Vec::new();
    seen.push(String::from_str("PSDesiredStateConfiguration"));
    proof {
        assert(text::strs_view(seen@) =~= seed + first_occurrences(seed, req.take(0)));
        assert(req.take(0) =~= Seq::<Seq<char>>::empty());
        assert(first_occurrences(seed, req.take(0)).map_values(|m: Seq<char>| import_line(m))
            =~= Seq::<Seq<char>>::empty());
        assert(out@ =~= head + first_occurrences(seed, req.take(0)).map_values(
            |m: Seq<char>| import_line(m),
        ).flatten());
    }
    let n = requested.len();
    let mut i: usize = 0;
    while i < n
        invariant
            n == requested@.len(),
            i <= n,
            req == text::strs_view(requested@),
            seed == seq![base_module()],
            text::strs_view(seen@) == seed + first_occurrences(seed, req.take(i as int)),
            out@ == head + first_occurrences(seed, req.take(i as int)).map_values(
                |m: Seq<char>| import_line(m),
            ).flatten(),
        decreases n - i,
    {
        let name = &requested[i];
        let ghost prev = first_occurrences(seed, req.take(i as int));
        proof {
            assert(req.take(i + 1).drop_last() =~= req.take(i as int));
            assert(req.take(i + 1).last() == name@);
        }
        let present = contains_string(&seen, name);
        if !present {
            let ghost before = text::strs_view(seen@);
            seen.push(name.clone());
            out.append("    Import-DscResource -Module ");
            out.append(name.as_str());
            out.append("\n");
            proof {
                assert(first_occurrences(seed, req.take(i + 1)) == prev.push(name@));
                assert(text::strs_view(seen@) =~= before.push(name@));
                assert(text::strs_view(seen@) =~= seed + prev.push(name@));
                assert(prev.push(name@).map_values(|m: Seq<char>| import_line(m)) =~= prev.map_values(
                    |m: Seq<char>| import_line(m),
                ).push(import_line(name@)));
                prev.map_values(|m: Seq<char>| import_line(m)).lemma_flatten_push(import_line(name@));
                assert(out@ =~= head + first_occurrences(seed, req.take(i + 1)).map_values(
                    |m: Seq<char>| import_line(m),
                ).flatten());
            }
        } else {
            proof {
                assert(first_occurrences(seed, req.take(i + 1)) == prev);
            }
        }
        i = i + 1;
    }
    proof {
        assert(req.take(n as int) =~= req);
    }
    out.append("\n    Node $AllNodes.NodeName {\n\n");
    out.append("    }\n\n");
    out.append("}\n\n");
    out.append("LabConfiguration -ConfigurationData '.\\");
    out.append(config.environment_name.as_str());
    out.append(".psd1' -OutputPath '.\\");
    out.append(config.environment_name.as_str());
    out.append("'\n");
    proof {
        assert(out@ =~= ps1_text(config@));
    }
    out
}


/// The modules that `first_occurrences` keeps: none occurs twice, none is
/// in `seen`, and they are exactly the items that are not in `seen`.
pub proof fn lemma_first_occurrences(seen: Seq<Seq<char>>, items: Seq<Seq<char>>)
    ensures
        first_occurrences(seen, items).no_duplicates(),
        forall|x: Seq<char>| #[trigger]
            first_occurrences(seen, items).contains(x) <==> (items.contains(x) && !seen.contains(x)),
    decreases items.len(),
{
    if items.len() > 0 {
        let dl = items.drop_last();
        let last = items.last();
        lemma_first_occurrences(seen, dl);
        let e = first_occurrences(seen, dl);
        assert forall|x: Seq<char>| items.contains(x) <==> (dl.contains(x) || x == last) by {
            if items.contains(x) {
                let k = choose|k: int| 0 <= k < items.len() && items[k] == x;
                if k < items.len() - 1 {
                    assert(dl[k] == x);
                }
            }
            if dl.contains(x) {
                let k = choose|k: int| 0 <= k < dl.len() && dl[k] == x;
                assert(items[k] == x);
            }
            if x == last {
                assert(items[items.len() - 1] == x);
            }
        }
        if (seen + e).contains(last) {
            if !seen.contains(last) {
                let k = choose|k: int| 0 <= k < (seen + e).len() && (seen + e)[k] == last;
                if k < seen.len() {
                    assert(seen[k] == last);
                } else {
                    assert(e[k - seen.len()] == last);
                }
            }
        } else {
            assert(!e.contains(last)) by {
                if e.contains(last) {
                    let k = choose|k: int| 0 <= k < e.len() && e[k] == last;
                    assert((seen + e)[seen.len() + k] == last);
                }
            }
            assert(!seen.contains(last)) by {
                if seen.contains(last) {
                    let k = choose|k: int| 0 <= k < seen.len() && seen[k] == last;
                    assert((seen + e)[k] == last);
                }
            }
            let r = e.push(last);
            assert forall|x: Seq<char>| r.contains(x) <==> (e.contains(x) || x == last) by {
                if r.contains(x) {
                    let k = choose|k: int| 0 <= k < r.len() && r[k] == x;
                    if k < e.len() {
                        assert(e[k] == x);
                    }
                }
                if e.contains(x) {
                    let k = choose|k: int| 0 <= k < e.len() && e[k] == x;
                    assert(r[k] == x);
                }
                if x == last {
                    assert(r[e.len() as int] == x);
                }
            }
        }
    }
}

/// The configuration script imports the base module once, in its header,
/// and every other module that a node or the lab asks for exactly once.
pub proof fn lemma_ps1_imports_each_module_once(c: LabView)
    ensures
        extra_imports(c).no_duplicates(),
        !extra_imports(c).contains(base_module()),
        forall|m: Seq<char>| #[trigger]
            extra_imports(c).contains(m) <==> (requested_modules(c).contains(m) && m != base_module()),
{
    let seed = seq![base_module()];
    lemma_first_occurrences(seed, requested_modules(c));
    assert forall|m: Seq<char>| seed.contains(m) <==> m == base_module() by {
        if m == base_module() {
            assert(seed[0] == m);
        }
    }
}

/// Some node asks for module `m` among its DSC resources.
pub open spec fn some_node_requests(c: LabView, m: Seq<char>) -> bool {
    exists|i: int, k: int|
        0 <= i < c.nodes.len() && 0 <= k < c.nodes[i].dsc_resources.len() && #[trigger] c.nodes[i].dsc_resources[k]
            == m
}

/// The lab itself lists module `m`.
pub open spec fn lab_requests(c: LabView, m: Seq<char>) -> bool {
    exists|k: int| 0 <= k < c.dsc_modules.len() && #[trigger] c.dsc_modules[k].module_name == m
}

/// Which modules the lab asks for, read off the nodes and the lab directly.
proof fn lemma_requested_modules_contains(c: LabView, m: Seq<char>)
    ensures
        requested_modules(c).contains(m) <==> (some_node_requests(c, m) || lab_requests(c, m)),
{
    let per_node = c.nodes.map_values(|n: NodeView| n.dsc_resources);
    let names = c.dsc_modules.map_values(|d: ModuleView| d.module_name);
    let f = per_node.flatten();
    text::lemma_flatten_contains(per_node, m);
    if requested_modules(c).contains(m) {
        let j = choose|j: int| 0 <= j < (f + names).len() && (f + names)[j] == m;
        if j < f.len() {
            assert(f[j] == m);
            let (i, k) = choose|i: int, k: int|
                0 <= i < per_node.len() && 0 <= k < per_node[i].len() && #[trigger] per_node[i][k] == m;
            assert(c.nodes[i].dsc_resources[k] == m);
        } else {
            assert(names[j - f.len()] == m);
            assert(c.dsc_modules[j - f.len()].module_name == m);
        }
    }
    if some_node_requests(c, m) {
        let (i, k) = choose|i: int, k: int|
            0 <= i < c.nodes.len() && 0 <= k < c.nodes[i].dsc_resources.len() && #[trigger] c.nodes[i].dsc_resources[k]
                == m;
        assert(per_node[i][k] == m);
        let j = choose|j: int| 0 <= j < f.len() && f[j] == m;
        assert((f + names)[j] == m);
    }
    if lab_requests(c, m) {
        let k = choose|k: int| 0 <= k < c.dsc_modules.len() && #[trigger] c.dsc_modules[k].module_name == m;
        assert(names[k] == m);
        assert((f + names)[f.len() + k] == m);
    }
}

/// The configuration script is its header (which imports
/// `PSDesiredStateConfiguration`), one import line per module of a list,
/// and the invocation of the configuration on the lab's files. That list
/// holds no module twice and holds exactly the modules other than
/// `PSDesiredStateConfiguration` that some node or the lab asks for.
pub proof fn lemma_ps1_imports_requested_modules(c: LabView)
    ensures
        exists|imports: Seq<Seq<char>>|
            {
                &&& ps1_text(c) == "configuration LabConfiguration {\n\n"@
                    + ("    Import-DscResource -Module "@ + "PSDesiredStateConfiguration"@ + "\n"@)
                    + imports.map_values(|m: Seq<char>| "    Import-DscResource -Module "@ + m + "\n"@).flatten()
                    + "\n    Node $AllNodes.NodeName {\n\n"@ + "    }\n\n"@ + "}\n\n"@
                    + "LabConfiguration -ConfigurationData '.\\"@ + c.environment_name
                    + ".psd1' -OutputPath '.\\"@ + c.environment_name + "'\n"@
                &&& imports.no_duplicates()
                &&& forall|m: Seq<char>|
                    #[trigger] imports.contains(m) <==> (m != "PSDesiredStateConfiguration"@ && (
                    some_node_requests(c, m) || lab_requests(c, m)))
            },
{
    let imports = extra_imports(c);
    lemma_ps1_imports_each_module_once(c);
    assert(imports.map_values(|m: Seq<char>| import_line(m)) =~= imports.map_values(
        |m: Seq<char>| "    Import-DscResource -Module "@ + m + "\n"@,
    ));
    assert forall|m: Seq<char>|
        #[trigger] imports.contains(m) <==> (m != "PSDesiredStateConfiguration"@ && (some_node_requests(c, m)
            || lab_requests(c, m))) by {
        lemma_requested_modules_contains(c, m);
    }
}

} // verus!
