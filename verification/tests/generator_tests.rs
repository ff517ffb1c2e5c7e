use labtui::lability::config::{
    DscModule, LabConfig, NetworkAdapter, NodeConfig, SwitchType, VirtualSwitch,
};
use labtui::lability::generator::{bytes_to_ps_memory, generate_ps1, generate_psd1};

fn make_config() -> LabConfig {
    let mut cfg = LabConfig::new("TestLab");
    cfg.nodes.push(NodeConfig {
        node_name: "DC01".to_string(),
        ip_address: Some("192.168.1.10".to_string()),
        role: "DomainController".to_string(),
        cpu_count: 2,
        start_up_memory_bytes: 2 * 1024 * 1024 * 1024,
        minimum_memory_bytes: 512 * 1024 * 1024,
        maximum_memory_bytes: 4 * 1024 * 1024 * 1024,
        media_id: "2022_x64_Standard_EN_Eval".to_string(),
        network_adapters: vec![NetworkAdapter {
            switch_name: "CORPNET".to_string(),
            mac_address: None,
        }],
        dsc_resources: vec!["xActiveDirectory".to_string()],
        custom_data: Default::default(),
    });
    cfg.networks.push(VirtualSwitch {
        name: "CORPNET".to_string(),
        switch_type: SwitchType::Internal,
        allow_management_os: false,
    });
    cfg.dsc_modules.push(DscModule::new("xNetworking", "5.7.0.0"));
    cfg
}

#[test]
fn bytes_to_ps_memory_gb() {
    assert_eq!(bytes_to_ps_memory(2 * 1024 * 1024 * 1024), "2GB");
}

#[test]
fn bytes_to_ps_memory_mb() {
    assert_eq!(bytes_to_ps_memory(512 * 1024 * 1024), "512MB");
}

#[test]
fn bytes_to_ps_memory_raw() {
    assert_eq!(bytes_to_ps_memory(1_000_000), "1000000");
}

#[test]
fn psd1_contains_node_name() {
    let cfg = make_config();
    let psd1 = generate_psd1(&cfg);
    assert!(psd1.contains("NodeName                    = 'DC01'"));
}

#[test]
fn psd1_contains_media() {
    let cfg = make_config();
    let psd1 = generate_psd1(&cfg);
    assert!(psd1.contains("Lability_Media              = '2022_x64_Standard_EN_Eval'"));
}

#[test]
fn psd1_contains_memory_as_gb() {
    let cfg = make_config();
    let psd1 = generate_psd1(&cfg);
    assert!(psd1.contains("Lability_StartupMemory      = 2GB"));
    assert!(psd1.contains("Lability_MinimumMemory      = 512MB"));
    assert!(psd1.contains("Lability_MaximumMemory      = 4GB"));
}

#[test]
fn psd1_contains_switch_name() {
    let cfg = make_config();
    let psd1 = generate_psd1(&cfg);
    assert!(psd1.contains("'CORPNET'"));
}

#[test]
fn psd1_contains_network_section() {
    let cfg = make_config();
    let psd1 = generate_psd1(&cfg);
    assert!(psd1.contains("Name              = 'CORPNET'"));
    assert!(psd1.contains("Type              = 'Internal'"));
}

#[test]
fn psd1_contains_ip_address() {
    let cfg = make_config();
    let psd1 = generate_psd1(&cfg);
    assert!(psd1.contains("IPAddress                   = '192.168.1.10'"));
}

#[test]
fn psd1_omits_empty_ip() {
    let mut cfg = make_config();
    cfg.nodes[0].ip_address = None;
    let psd1 = generate_psd1(&cfg);
    assert!(!psd1.contains("IPAddress"));
}

#[test]
fn ps1_contains_configuration_block() {
    let cfg = make_config();
    let ps1 = generate_ps1(&cfg);
    assert!(ps1.contains("configuration LabConfiguration"));
    assert!(ps1.contains("Node $AllNodes.NodeName"));
    // LocalConfigurationManager must NOT appear inside the configuration
    // block — placing it there makes PowerShell DSC compile only a
    // .meta.mof (LCM config) instead of the required .mof node config.
    assert!(!ps1.contains("LocalConfigurationManager"));
}

#[test]
fn ps1_node_block_has_no_lcm() {
    // Regression guard: ensure the Node block never re-introduces
    // LocalConfigurationManager. Its presence would cause DSC to produce
    // only Node01.meta.mof and skip Node01.mof, breaking Start-LabConfiguration.
    let cfg = make_config();
    let ps1 = generate_ps1(&cfg);
    assert!(
        !ps1.contains("LocalConfigurationManager"),
        "LocalConfigurationManager must not appear in the generated PS1 – \
         it causes DSC to generate only .meta.mof instead of .mof"
    );
}

#[test]
fn ps1_contains_dsc_imports() {
    let cfg = make_config();
    let ps1 = generate_ps1(&cfg);
    assert!(ps1.contains("Import-DscResource -Module PSDesiredStateConfiguration"));
    assert!(ps1.contains("Import-DscResource -Module xActiveDirectory"));
    assert!(ps1.contains("Import-DscResource -Module xNetworking"));
}

#[test]
fn ps1_does_not_duplicate_dsc_imports() {
    let mut cfg = make_config();
    // Add same resource at node level and lab module level
    cfg.dsc_modules.push(DscModule::new("xActiveDirectory", "3.0.0.0"));
    let ps1 = generate_ps1(&cfg);
    assert_eq!(
        ps1.matches("Import-DscResource -Module xActiveDirectory").count(),
        1
    );
}

#[test]
fn ps1_ends_with_invocation() {
    let cfg = make_config();
    let ps1 = generate_ps1(&cfg);
    assert!(ps1.contains(
        "LabConfiguration -ConfigurationData '.\\TestLab.psd1' -OutputPath '.\\TestLab'"
    ));
}
