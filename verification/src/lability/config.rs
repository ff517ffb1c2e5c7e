//! The lab model: nodes (VMs), virtual switches, DSC modules and media.

use vstd::prelude::*;
use crate::text;

verus! {

/// One mebibyte in bytes.
pub const MIB: u64 = 1024 * 1024;

/// One gibibyte in bytes.
pub const GIB: u64 = 1024 * 1024 * 1024;

/// Abstract value of a [`NetworkAdapter`].
#[verifier::ext_equal]
pub struct AdapterView {
    pub switch_name: Seq<char>,
    pub mac_address: Option<Seq<char>>,
}

/// A virtual network adapter of a node.
#[derive(Debug, Clone)]
pub struct NetworkAdapter {
    pub switch_name: String,
    pub mac_address: Option<String>,
}

impl View for NetworkAdapter {
    type V = AdapterView;

    open spec fn view(&self) -> AdapterView {
        AdapterView { switch_name: self.switch_name@, mac_address: text::opt_str_view(self.mac_address) }
    }
}

/// The views of a sequence of adapters.
pub open spec fn adapters_view(v: Seq<NetworkAdapter>) -> Seq<AdapterView> {
    v.map_values(|a: NetworkAdapter| a@)
}

/// The views of a sequence of key/value pairs.
pub open spec fn pairs_view(v: Seq<(String, String)>) -> Seq<(Seq<char>, Seq<char>)> {
    v.map_values(|p: (String, String)| (p.0@, p.1@))
}

/// Abstract value of a [`NodeConfig`].
#[verifier::ext_equal]
pub struct NodeView {
    pub node_name: Seq<char>,
    pub ip_address: Option<Seq<char>>,
    pub role: Seq<char>,
    pub cpu_count: u32,
    pub start_up_memory_bytes: u64,
    pub minimum_memory_bytes: u64,
    pub maximum_memory_bytes: u64,
    pub media_id: Seq<char>,
    pub network_adapters: Seq<AdapterView>,
    pub dsc_resources: Seq<Seq<char>>,
    pub custom_data: Seq<(Seq<char>, Seq<char>)>,
}

impl NodeView {
    /// No key of the custom configuration data occurs twice.
    pub open spec fn custom_keys_distinct(self) -> bool {
        forall|i: int, j: int|
            0 <= i < j < self.custom_data.len() ==> #[trigger] self.custom_data[i].0
                != #[trigger] self.custom_data[j].0
    }
}

/// A Lability node (VM). `custom_data` holds extra configuration data as
/// key/value entries whose keys are distinct, in insertion order.
#[derive(Debug, Clone)]
pub struct NodeConfig {
    pub node_name: String,
    pub ip_address: Option<String>,
    pub role: String,
    pub cpu_count: u32,
    pub start_up_memory_bytes: u64,
    pub minimum_memory_bytes: u64,
    pub maximum_memory_bytes: u64,
    pub media_id: String,
    pub network_adapters: Vec<NetworkAdapter>,
    pub dsc_resources: Vec<String>,
    pub custom_data: Vec<(String, String)>,
}

impl View for NodeConfig {
    type V = NodeView;

    open spec fn view(&self) -> NodeView {
        NodeView {
            node_name: self.node_name@,
            ip_address: text::opt_str_view(self.ip_address),
            role: self.role@,
            cpu_count: self.cpu_count,
            start_up_memory_bytes: self.start_up_memory_bytes,
            minimum_memory_bytes: self.minimum_memory_bytes,
            maximum_memory_bytes: self.maximum_memory_bytes,
            media_id: self.media_id@,
            network_adapters: adapters_view(self.network_adapters@),
            dsc_resources: text::strs_view(self.dsc_resources@),
            custom_data: pairs_view(self.custom_data@),
        }
    }
}

/// The views of a sequence of nodes.
pub open spec fn nodes_view(v: Seq<NodeConfig>) -> Seq<NodeView> {
    v.map_values(|n: NodeConfig| n@)
}

/// The name of the switch that new nodes and labs attach to.
pub open spec fn default_switch_name() -> Seq<char> {
    "Default Switch"@
}

/// The node that `NodeConfig::default` builds.
pub open spec fn default_node() -> NodeView {
    NodeView {
        node_name: "LabNode"@,
        ip_address: None,
        role: "Default"@,
        cpu_count: 2,
        start_up_memory_bytes: (2 * GIB) as u64,
        minimum_memory_bytes: (512 * MIB) as u64,
        maximum_memory_bytes: (4 * GIB) as u64,
        media_id: "2022_x64_Standard_EN_Eval"@,
        network_adapters: seq![AdapterView { switch_name: default_switch_name(), mac_address: None }],
        dsc_resources: Seq::empty(),
        custom_data: Seq::empty(),
    }
}

/// An adapter on the default switch, without a fixed MAC address.
pub fn default_adapter() -> (r: NetworkAdapter)
    ensures
        r@ == (AdapterView { switch_name: default_switch_name(), mac_address: None }),
{
    NetworkAdapter { switch_name: String::from_str("Default Switch"), mac_address: None }
}

impl Default for NodeConfig {
    fn default() -> (r: Self)
        ensures
            r@ == default_node(),
    {
        let mut adapters: Vec<NetworkAdapter> = Vec::new();
        adapters.push(default_adapter());
        let r = NodeConfig {
            node_name: String::from_str("LabNode"),
            ip_address: None,
            role: String::from_str("Default"),
            cpu_count: 2,
            start_up_memory_bytes: 2 * GIB,
            minimum_memory_bytes: 512 * MIB,
            maximum_memory_bytes: 4 * GIB,
            media_id: String::from_str("2022_x64_Standard_EN_Eval"),
            network_adapters: adapters,
            dsc_resources: Vec::new(),
            custom_data: Vec::new(),
        };
        proof {
            assert(adapters_view(r.network_adapters@) =~= default_node().network_adapters);
            assert(text::strs_view(r.dsc_resources@) =~= Seq::<Seq<char>>::empty());
            assert(pairs_view(r.custom_data@) =~= Seq::<(Seq<char>, Seq<char>)>::empty());
        }
        r
    }
}

/// Abstract value of a [`DscModule`].
#[verifier::ext_equal]
pub struct ModuleView {
    pub module_name: Seq<char>,
    pub module_version: Seq<char>,
    pub repository: Option<Seq<char>>,
}

/// A DSC (Desired State Configuration) module.
#[derive(Debug, Clone)]
pub struct DscModule {
    pub module_name: String,
    pub module_version: String,
    pub repository: Option<String>,
}

impl View for DscModule {
    type V = ModuleView;

    open spec fn view(&self) -> ModuleView {
        ModuleView {
            module_name: self.module_name@,
            module_version: self.module_version@,
            repository: text::opt_str_view(self.repository),
        }
    }
}

/// The views of a sequence of modules.
pub open spec fn modules_view(v: Seq<DscModule>) -> Seq<ModuleView> {
    v.map_values(|m: DscModule| m@)
}

impl DscModule {
    /// A module with the given name and version and no repository.
    pub fn new(name: &str, version: &str) -> (r: Self)
        ensures
            r@ == (ModuleView { module_name: name@, module_version: version@, repository: None }),
    {
        DscModule {
            module_name: String::from_str(name),
            module_version: String::from_str(version),
            repository: None,
        }
    }
}

/// Type of Hyper-V virtual switch.
#[derive(Debug, Clone, Copy, PartialEq, Eq, Structural)]
pub enum SwitchType {
    Internal,
    External,
    Private,
}

/// The name of a switch type.
pub open spec fn switch_type_name(t: SwitchType) -> Seq<char> {
    match t {
        SwitchType::Internal => "Internal"@,
        SwitchType::External => "External"@,
        SwitchType::Private => "Private"@,
    }
}

impl SwitchType {
    /// The name of the switch type, as shown and as written to the lab files.
    pub fn label(&self) -> (r: &'static str)
        ensures
            r@ == switch_type_name(*self),
    {
        match self {
            SwitchType::Internal => "Internal",
            SwitchType::External => "External",
            SwitchType::Private => "Private",
        }
    }
}

/// Abstract value of a [`VirtualSwitch`].
#[verifier::ext_equal]
pub struct SwitchView {
    pub name: Seq<char>,
    pub switch_type: SwitchType,
    pub allow_management_os: bool,
}

/// A Hyper-V virtual switch.
#[derive(Debug, Clone)]
pub struct VirtualSwitch {
    pub name: String,
    pub switch_type: SwitchType,
    pub allow_management_os: bool,
}

impl View for VirtualSwitch {
    type V = SwitchView;

    open spec fn view(&self) -> SwitchView {
        SwitchView {
            name: self.name@,
            switch_type: self.switch_type,
            allow_management_os: self.allow_management_os,
        }
    }
}

/// The views of a sequence of switches.
pub open spec fn switches_view(v: Seq<VirtualSwitch>) -> Seq<SwitchView> {
    v.map_values(|s: VirtualSwitch| s@)
}

impl Default for VirtualSwitch {
    fn default() -> (r: Self)
        ensures
            r@ == (SwitchView {
                name: default_switch_name(),
                switch_type: SwitchType::Internal,
                allow_management_os: true,
            }),
    {
        VirtualSwitch {
            name: String::from_str("Default Switch"),
            switch_type: SwitchType::Internal,
            allow_management_os: true,
        }
    }
}

/// Abstract value of a [`LabConfig`].
#[verifier::ext_equal]
pub struct LabView {
    pub environment_name: Seq<char>,
    pub default_switch_name: Seq<char>,
    pub nodes: Seq<NodeView>,
    pub dsc_modules: Seq<ModuleView>,
    pub networks: Seq<SwitchView>,
}

/// The whole lab configuration.
#[derive(Debug, Clone)]
pub struct LabConfig {
    pub environment_name: String,
    pub default_switch_name: String,
    pub nodes: Vec<NodeConfig>,
    pub dsc_modules: Vec<DscModule>,
    pub networks: Vec<VirtualSwitch>,
}

impl View for LabConfig {
    type V = LabView;

    open spec fn view(&self) -> LabView {
        LabView {
            environment_name: self.environment_name@,
            default_switch_name: self.default_switch_name@,
            nodes: nodes_view(self.nodes@),
            dsc_modules: modules_view(self.dsc_modules@),
            networks: switches_view(self.networks@),
        }
    }
}

impl LabConfig {
    /// An empty lab with the given name on the default switch.
    pub fn new(environment_name: &str) -> (r: Self)
        ensures
            r@ == (LabView {
                environment_name: environment_name@,
                default_switch_name: default_switch_name(),
                nodes: Seq::empty(),
                dsc_modules: Seq::empty(),
                networks: Seq::empty(),
            }),
    {
        let r = LabConfig {
            environment_name: String::from_str(environment_name),
            default_switch_name: String::from_str("Default Switch"),
            nodes: Vec::new(),
            dsc_modules: Vec::new(),
            networks: Vec::new(),
        };
        proof {
            assert(nodes_view(r.nodes@) =~= Seq::<NodeView>::empty());
            assert(modules_view(r.dsc_modules@) =~= Seq::<ModuleView>::empty());
            assert(switches_view(r.networks@) =~= Seq::<SwitchView>::empty());
        }
        r
    }
}

impl Default for LabConfig {
    fn default() -> (r: Self)
        ensures
            r@ == (LabView {
                environment_name: Seq::empty(),
                default_switch_name: Seq::empty(),
                nodes: Seq::empty(),
                dsc_modules: Seq::empty(),
                networks: Seq::empty(),
            }),
    {
        let r = LabConfig {
            environment_name: String::new(),
            default_switch_name: String::new(),
            nodes: Vec::new(),
            dsc_modules: Vec::new(),
            networks: Vec::new(),
        };
        proof {
            assert(nodes_view(r.nodes@) =~= Seq::<NodeView>::empty());
            assert(modules_view(r.dsc_modules@) =~= Seq::<ModuleView>::empty());
            assert(switches_view(r.networks@) =~= Seq::<SwitchView>::empty());
        }
        r
    }
}

/// Abstract value of a [`MediaEntry`].
#[verifier::ext_equal]
pub struct MediaView {
    pub id: Seq<char>,
    pub description: Seq<char>,
    pub architecture: Seq<char>,
    pub media_type: Seq<char>,
}

/// A known Lability media entry.
#[derive(Debug, Clone)]
pub struct MediaEntry {
    pub id: String,
    pub description: String,
    pub architecture: String,
    pub media_type: String,
}

impl View for MediaEntry {
    type V = MediaView;

    open spec fn view(&self) -> MediaView {
        MediaView {
            id: self.id@,
            description: self.description@,
            architecture: self.architecture@,
            media_type: self.media_type@,
        }
    }
}

/// The views of a sequence of media entries.
pub open spec fn media_view(v: Seq<MediaEntry>) -> Seq<MediaView> {
    v.map_values(|m: MediaEntry| m@)
}

/// A 64-bit ISO image with the given id and description.
pub open spec fn iso_x64(id: Seq<char>, description: Seq<char>) -> MediaView {
    MediaView { id, description, architecture: "x86_64"@, media_type: "ISO"@ }
}

/// The built-in Lability media list.
pub open spec fn builtin_media() -> Seq<MediaView> {
    seq![
        iso_x64("2022_x64_Standard_EN_Eval"@, "Windows Server 2022 Standard 64-bit English Evaluation"@),
        iso_x64("2022_x64_Datacenter_EN_Eval"@, "Windows Server 2022 Datacenter 64-bit English Evaluation"@),
        iso_x64("2019_x64_Standard_EN_Eval"@, "Windows Server 2019 Standard 64-bit English Evaluation"@),
        iso_x64("2019_x64_Datacenter_EN_Eval"@, "Windows Server 2019 Datacenter 64-bit English Evaluation"@),
        iso_x64("2016_x64_Standard_EN_Eval"@, "Windows Server 2016 Standard 64-bit English Evaluation"@),
        iso_x64("WIN10_x64_Enterprise_EN_Eval"@, "Windows 10 Enterprise 64-bit English Evaluation"@),
        iso_x64("WIN11_x64_Enterprise_EN_Eval"@, "Windows 11 Enterprise 64-bit English Evaluation"@),
    ]
}

fn iso_x64_entry(id: &str, description: &str) -> (r: MediaEntry)
    ensures
        r@ == iso_x64(id@, description@),
{
    MediaEntry {
        id: String::from_str(id),
        description: String::from_str(description),
        architecture: String::from_str("x86_64"),
        media_type: String::from_str("ISO"),
    }
}

/// Return the built-in Lability media list.
pub fn default_media_list() -> (r: Vec<MediaEntry>)
    ensures
        media_view(r@) == builtin_media(),
        r@.len() == 7,
{
    let mut v: Vec<MediaEntry> = Vec::new();
    v.push(iso_x64_entry("2022_x64_Standard_EN_Eval", "Windows Server 2022 Standard 64-bit English Evaluation"));
    v.push(iso_x64_entry("2022_x64_Datacenter_EN_Eval", "Windows Server 2022 Datacenter 64-bit English Evaluation"));
    v.push(iso_x64_entry("2019_x64_Standard_EN_Eval", "Windows Server 2019 Standard 64-bit English Evaluation"));
    v.push(iso_x64_entry("2019_x64_Datacenter_EN_Eval", "Windows Server 2019 Datacenter 64-bit English Evaluation"));
    v.push(iso_x64_entry("2016_x64_Standard_EN_Eval", "Windows Server 2016 Standard 64-bit English Evaluation"));
    v.push(iso_x64_entry("WIN10_x64_Enterprise_EN_Eval", "Windows 10 Enterprise 64-bit English Evaluation"));
    v.push(iso_x64_entry("WIN11_x64_Enterprise_EN_Eval", "Windows 11 Enterprise 64-bit English Evaluation"));
    proof {
        assert(media_view(v@) =~= builtin_media());
    }
    v
}

/// The DSC modules commonly used with Lability.
pub open spec fn common_modules() -> Seq<ModuleView> {
    seq![
        ModuleView { module_name: "xActiveDirectory"@, module_version: "3.0.0.0"@, repository: None },
        ModuleView { module_name: "xDnsServer"@, module_version: "2.0.0.0"@, repository: None },
        ModuleView { module_name: "xDhcpServer"@, module_version: "3.0.0.0"@, repository: None },
        ModuleView { module_name: "xNetworking"@, module_version: "5.7.0.0"@, repository: None },
        ModuleView { module_name: "xComputerManagement"@, module_version: "4.1.0.0"@, repository: None },
        ModuleView { module_name: "xWebAdministration"@, module_version: "3.3.0.0"@, repository: None },
        ModuleView { module_name: "PSDesiredStateConfiguration"@, module_version: "1.1"@, repository: None },
        ModuleView { module_name: "xSmbShare"@, module_version: "2.2.0.0"@, repository: None },
        ModuleView { module_name: "xRemoteDesktopAdmin"@, module_version: "1.1.0.0"@, repository: None },
        ModuleView { module_name: "xWindowsUpdate"@, module_version: "2.8.0.0"@, repository: None },
    ]
}

/// Common DSC resources used with Lability.
pub fn common_dsc_modules() -> (r: Vec<DscModule>)
    ensures
        modules_view(r@) == common_modules(),
{
    let mut v: Vec<DscModule> = Vec::new();
    v.push(DscModule::new("xActiveDirectory", "3.0.0.0"));
    v.push(DscModule::new("xDnsServer", "2.0.0.0"));
    v.push(DscModule::new("xDhcpServer", "3.0.0.0"));
    v.push(DscModule::new("xNetworking", "5.7.0.0"));
    v.push(DscModule::new("xComputerManagement", "4.1.0.0"));
    v.push(DscModule::new("xWebAdministration", "3.3.0.0"));
    v.push(DscModule::new("PSDesiredStateConfiguration", "1.1"));
    v.push(DscModule::new("xSmbShare", "2.2.0.0"));
    v.push(DscModule::new("xRemoteDesktopAdmin", "1.1.0.0"));
    v.push(DscModule::new("xWindowsUpdate", "2.8.0.0"));
    proof {
        assert(modules_view(v@) =~= common_modules());
    }
    v
}

} // verus!
