use labtui::app::{App, Effect, Event, Screen, Stage, Step};
use labtui::lability::config::{
    common_dsc_modules, default_media_list, DscModule, LabConfig, MediaEntry, NetworkAdapter,
    NodeConfig, SwitchType, VirtualSwitch,
};
use labtui::lability::deployment::{Deployment, DeploymentAction, DeploymentStatus};
use labtui::lability::generator::{bytes_to_ps_memory, generate_ps1, generate_psd1};
use labtui::lability::media::MediaRepository;
use labtui::lability::powershell::{
    check_lability_command, get_switches_command, install_modules_command, powershell_args,
    powershell_exe, remove_lab_command, start_lab_command, stop_lab_command, PsResult,
};
use labtui::text::{decimal_string, split_lines};
use labtui::ui::network::{cycle_switch_type, new_switch};
use labtui::ui::vm_config::{new_node, VmField};

fn sample_config() -> LabConfig {
    let mut cfg = LabConfig::new("TestLab");
    cfg.nodes.push(NodeConfig {
        node_name: "DC01".to_string(),
        ip_address: Some("192.168.1.10".to_string()),
        role: "DomainController".to_string(),
        cpu_count: 2,
        start_up_memory_bytes: 2 * 1024 * 1024 * 1024,
        minimum_memory_bytes: 512 * 1024 * 1024,
        maximum_memory_bytes: 4 * 1024 * 1024 * 1024,
        media_id: "2022_x64_Standard_EN_Eval".to_string(),
        network_adapters: vec![NetworkAdapter {
            switch_name: "CORPNET".to_string(),
            mac_address: None,
        }],
        dsc_resources: vec!["xActiveDirectory".to_string()],
        custom_data: Vec::new(),
    });
    cfg.networks.push(VirtualSwitch {
        name: "CORPNET".to_string(),
        switch_type: SwitchType::Internal,
        allow_management_os: false,
    });
    cfg.dsc_modules.push(DscModule::new("xNetworking", "5.7.0.0"));
    cfg
}

fn ps_ok(stdout: &str) -> Event {
    Event::PowerShellRan(Ok(PsResult {
        stdout: stdout.to_string(),
        stderr: String::new(),
        success: true,
    }))
}

fn ps_failed(stderr: &str) -> Event {
    Event::PowerShellRan(Ok(PsResult {
        stdout: String::new(),
        stderr: stderr.to_string(),
        success: false,
    }))
}

fn written() -> Event {
    Event::FilesWritten(Ok(("out/MyLab.psd1".to_string(), "out/MyLab.ps1".to_string())))
}

fn run_command(step: &Step) -> (String, bool) {
    match &step.effect {
        Effect::RunPowerShell { command, interactive } => (command.clone(), *interactive),
        other => panic!("expected a command, got {:?}", other),
    }
}

// ── Text building blocks ──────────────────────────────────────────────────

#[test]
fn decimal_string_values() {
    assert_eq!(decimal_string(0), "0");
    assert_eq!(decimal_string(7), "7");
    assert_eq!(decimal_string(10), "10");
    assert_eq!(decimal_string(1234567890), "1234567890");
    assert_eq!(decimal_string(u64::MAX), "18446744073709551615");
}

#[test]
fn split_lines_like_str_lines() {
    for s in ["", "a", "a\n", "a\r\nb", "a\n\nb\n", "\n", "x\r", "x\r\r\ny", "é\nü"] {
        let expected: Vec<String> = s.lines().map(|l| l.to_string()).collect();
        assert_eq!(split_lines(s), expected, "input {:?}", s);
    }
}

// ── Memory expressions ─────────────────────────────────────────────────────

#[test]
fn memory_expression_units() {
    assert_eq!(bytes_to_ps_memory(0), "0");
    assert_eq!(bytes_to_ps_memory(1024 * 1024), "1MB");
    assert_eq!(bytes_to_ps_memory(1024 * 1024 * 1024), "1GB");
    assert_eq!(bytes_to_ps_memory(1536 * 1024 * 1024), "1536MB");
    assert_eq!(bytes_to_ps_memory(1024 * 1024 + 1), "1048577");
    assert_eq!(bytes_to_ps_memory(64 * 1024 * 1024 * 1024), "64GB");
}

// ── Configuration data file ────────────────────────────────────────────────

#[test]
fn psd1_full_text() {
    let expected = [
        "@{\n",
        "    AllNodes = @(\n",
        "        @{\n",
        "            NodeName                    = 'DC01';\n",
        "            Lability_SwitchName         = @( 'CORPNET' );\n",
        "            Lability_Media              = '2022_x64_Standard_EN_Eval';\n",
        "            Lability_ProcessorCount     = 2;\n",
        "            Lability_StartupMemory      = 2GB;\n",
        "            Lability_MinimumMemory      = 512MB;\n",
        "            Lability_MaximumMemory      = 4GB;\n",
        "            IPAddress                   = '192.168.1.10';\n",
        "            PSDscAllowPlainTextPassword = $true;\n",
        "            PSDscAllowDomainUser        = $true;\n",
        "        }\n",
        "    );\n",
        "    NonNodeData = @{\n",
        "        Lability = @{\n",
        "            EnvironmentPrefix = 'TestLab';\n",
        "            Media             = @();\n",
        "            Network           = @(\n",
        "                @{\n",
        "                    Name              = 'CORPNET';\n",
        "                    Type              = 'Internal';\n",
        "                    AllowManagementOS = $false;\n",
        "                }\n",
        "            );\n",
        "        };\n",
        "    };\n",
        "}\n",
    ]
    .concat();
    assert_eq!(generate_psd1(&sample_config()), expected);
}

#[test]
fn psd1_empty_lab() {
    let cfg = LabConfig::new("Empty");
    let psd1 = generate_psd1(&cfg);
    assert!(psd1.starts_with("@{\n    AllNodes = @(\n    );\n"));
    assert!(psd1.contains("EnvironmentPrefix = 'Empty';"));
    assert!(psd1.ends_with("            Network           = @(\n            );\n        };\n    };\n}\n"));
}

#[test]
fn psd1_lists_several_switches_and_custom_data() {
    let mut cfg = sample_config();
    cfg.nodes[0].network_adapters.push(NetworkAdapter {
        switch_name: "External".to_string(),
        mac_address: Some("00-15-5D-00-00-01".to_string()),
    });
    cfg.nodes[0].custom_data.push(("Domain".to_string(), "corp.local".to_string()));
    cfg.nodes[0].ip_address = Some(String::new());
    let psd1 = generate_psd1(&cfg);
    assert!(psd1.contains("Lability_SwitchName         = @( 'CORPNET', 'External' );\n"));
    assert!(psd1.contains(
        "            Domain                              = 'corp.local';\n        }\n"
    ));
    assert!(!psd1.contains("IPAddress"));
}

#[test]
fn psd1_network_types_and_management() {
    let mut cfg = LabConfig::new("Net");
    cfg.networks.push(VirtualSwitch {
        name: "Ext".to_string(),
        switch_type: SwitchType::External,
        allow_management_os: true,
    });
    cfg.networks.push(VirtualSwitch {
        name: "Priv".to_string(),
        switch_type: SwitchType::Private,
        allow_management_os: false,
    });
    let psd1 = generate_psd1(&cfg);
    assert!(psd1.contains(
        "Name              = 'Ext';\n                    Type              = 'External';\n                    AllowManagementOS = $true;\n"
    ));
    assert!(psd1.contains("Type              = 'Private';\n                    AllowManagementOS = $false;\n"));
}

// ── Configuration script ───────────────────────────────────────────────────

#[test]
fn ps1_full_text() {
    let expected = [
        "configuration LabConfiguration {\n\n",
        "    Import-DscResource -Module PSDesiredStateConfiguration\n",
        "    Import-DscResource -Module xActiveDirectory\n",
        "    Import-DscResource -Module xNetworking\n",
        "\n    Node $AllNodes.NodeName {\n\n",
        "    }\n\n",
        "}\n\n",
        "LabConfiguration -ConfigurationData '.\\TestLab.psd1' -OutputPath '.\\TestLab'\n",
    ]
    .concat();
    assert_eq!(generate_ps1(&sample_config()), expected);
}

#[test]
fn ps1_imports_each_module_once_in_first_order() {
    let mut cfg = sample_config();
    cfg.nodes[0].dsc_resources.push("PSDesiredStateConfiguration".to_string());
    cfg.nodes[0].dsc_resources.push("xNetworking".to_string());
    let mut second = new_node(1);
    second.dsc_resources = vec!["xDnsServer".to_string(), "xActiveDirectory".to_string()];
    cfg.nodes.push(second);
    cfg.dsc_modules.push(DscModule::new("xDnsServer", "2.0.0.0"));
    let ps1 = generate_ps1(&cfg);
    let imports: Vec<&str> = ps1
        .lines()
        .filter_map(|l| l.strip_prefix("    Import-DscResource -Module "))
        .collect();
    assert_eq!(
        imports,
        vec!["PSDesiredStateConfiguration", "xActiveDirectory", "xNetworking", "xDnsServer"]
    );
}

// ── Model constructors ─────────────────────────────────────────────────────

#[test]
fn node_default_values() {
    let node = NodeConfig::default();
    assert_eq!(node.node_name, "LabNode");
    assert_eq!(node.role, "Default");
    assert_eq!(node.cpu_count, 2);
    assert_eq!(node.start_up_memory_bytes, 2 * 1024 * 1024 * 1024);
    assert_eq!(node.minimum_memory_bytes, 512 * 1024 * 1024);
    assert_eq!(node.maximum_memory_bytes, 4 * 1024 * 1024 * 1024);
    assert_eq!(node.media_id, "2022_x64_Standard_EN_Eval");
    assert_eq!(node.network_adapters.len(), 1);
    assert_eq!(node.network_adapters[0].switch_name, "Default Switch");
    assert!(node.ip_address.is_none());
    assert!(node.dsc_resources.is_empty());
    assert!(node.custom_data.is_empty());
}

#[test]
fn new_node_and_switch_names() {
    assert_eq!(new_node(0).node_name, "Node01");
    assert_eq!(new_node(8).node_name, "Node09");
    assert_eq!(new_node(9).node_name, "Node10");
    assert_eq!(new_node(99).node_name, "Node100");
    assert_eq!(new_node(0).role, "Default");
    assert_eq!(new_switch(0).name, "LabSwitch01");
    assert_eq!(new_switch(41).name, "LabSwitch42");
    assert_eq!(new_switch(0).switch_type, SwitchType::Internal);
    assert!(new_switch(0).allow_management_os);
}

#[test]
fn switch_type_cycle_returns_after_three_steps() {
    let mut sw = VirtualSwitch::default();
    assert_eq!(sw.name, "Default Switch");
    for _ in 0..3 {
        cycle_switch_type(&mut sw);
    }
    assert_eq!(sw.switch_type, SwitchType::Internal);
    cycle_switch_type(&mut sw);
    assert_eq!(sw.switch_type.label(), "External");
}

#[test]
fn lab_config_defaults() {
    let cfg = LabConfig::new("X");
    assert_eq!(cfg.default_switch_name, "Default Switch");
    let empty = LabConfig::default();
    assert!(empty.environment_name.is_empty());
    assert!(empty.default_switch_name.is_empty());
}

#[test]
fn built_in_lists() {
    let media = default_media_list();
    assert_eq!(media.len(), 7);
    assert_eq!(media[0].id, "2022_x64_Standard_EN_Eval");
    assert_eq!(media[6].description, "Windows 11 Enterprise 64-bit English Evaluation");
    assert!(media.iter().all(|m| m.architecture == "x86_64" && m.media_type == "ISO"));
    let modules = common_dsc_modules();
    assert_eq!(modules.len(), 10);
    assert_eq!(modules[6].module_name, "PSDesiredStateConfiguration");
    assert_eq!(modules[6].module_version, "1.1");
    assert!(modules.iter().all(|m| m.repository.is_none()));
}

#[test]
fn media_repository_lookup() {
    let mut repo = MediaRepository::default();
    assert_eq!(repo.ids().len(), 7);
    assert_eq!(repo.ids()[1], "2022_x64_Datacenter_EN_Eval");
    assert!(repo.find_by_id("missing").is_none());
    repo.add(MediaEntry {
        id: "Custom".to_string(),
        description: "first".to_string(),
        architecture: "x86_64".to_string(),
        media_type: "VHD".to_string(),
    });
    repo.add(MediaEntry {
        id: "Custom".to_string(),
        description: "second".to_string(),
        architecture: "x86_64".to_string(),
        media_type: "VHD".to_string(),
    });
    assert_eq!(repo.find_by_id("Custom").unwrap().description, "first");
    assert_eq!(repo.ids().last().copied(), Some("Custom"));
}

#[test]
fn deployment_record_and_labels() {
    let mut d = Deployment::new("Lab");
    d.add_log("one".to_string());
    d.add_log("two".to_string());
    assert_eq!(d.log_lines, vec!["one".to_string(), "two".to_string()]);
    assert_eq!(DeploymentStatus::NotStarted.label(), "Not Started");
    assert_eq!(DeploymentStatus::InProgress.label(), "In Progress");
    assert_eq!(DeploymentStatus::Failed("boom".to_string()).label(), "Failed: boom");
    assert_eq!(DeploymentAction::GenerateConfig.label(), "Generate Config Files");
    assert_eq!(DeploymentAction::Delete.label(), "Delete Lab");
}

// ── PowerShell commands ────────────────────────────────────────────────────

#[test]
fn powershell_command_texts() {
    assert_eq!(
        start_lab_command("MyLab", "C:\\Labs"),
        "$ErrorActionPreference = 'Stop'; Import-Module Lability; Set-Location 'C:\\Labs'; & '.\\MyLab.ps1'; Start-LabConfiguration -ConfigurationData '.\\MyLab.psd1' -Path '.\\MyLab' -Verbose"
    );
    assert_eq!(
        stop_lab_command("MyLab"),
        "Get-VM | Where-Object { $_.Name -like 'MyLab*' } | Stop-VM -Force"
    );
    assert_eq!(
        remove_lab_command("MyLab"),
        "Import-Module Lability; Remove-LabConfiguration -EnvironmentPath 'MyLab' -Verbose"
    );
    assert_eq!(
        install_modules_command(&["xNetworking".to_string(), "xSmbShare".to_string()]),
        "@('xNetworking', 'xSmbShare') | ForEach-Object { Install-Module -Name $_ -Force -AllowClobber }"
    );
    assert_eq!(
        install_modules_command(&[]),
        "@() | ForEach-Object { Install-Module -Name $_ -Force -AllowClobber }"
    );
    assert_eq!(
        check_lability_command(),
        "Get-Module -ListAvailable -Name Lability | Select-Object -ExpandProperty Version"
    );
    assert_eq!(get_switches_command(), "Get-VMSwitch | Select-Object -ExpandProperty Name");
    assert_eq!(powershell_exe(), "pwsh");
    assert_eq!(
        powershell_args("Get-VM", false),
        vec!["-NonInteractive", "-NoProfile", "-ExecutionPolicy", "Bypass", "-Command", "Get-VM"]
    );
    assert_eq!(
        powershell_args("Get-VM", true),
        vec!["-NoProfile", "-ExecutionPolicy", "Bypass", "-Command", "Get-VM"]
    );
}

// ── Application state ──────────────────────────────────────────────────────

#[test]
fn menu_select_each_entry() {
    let screens = [
        Screen::VmConfig,
        Screen::Network,
        Screen::Media,
        Screen::Deployment,
        Screen::Help,
        Screen::Dashboard,
    ];
    for (i, screen) in screens.iter().enumerate() {
        let mut app = App::new();
        app.menu_index = i;
        app.menu_select();
        assert_eq!(app.current_screen, *screen);
        assert_eq!(app.should_quit, i == 5);
    }
}

#[test]
fn vm_fields_cap_and_floor() {
    let mut app = App::new();
    app.add_node();
    app.vm_focused_field = VmField::CpuCount;
    for _ in 0..100 {
        app.vm_field_increment();
    }
    assert_eq!(app.lab_config.nodes[0].cpu_count, 64);
    app.vm_focused_field = VmField::StartMemory;
    for _ in 0..200 {
        app.vm_field_increment();
    }
    assert_eq!(app.lab_config.nodes[0].start_up_memory_bytes, 64 * 1024 * 1024 * 1024);
    for _ in 0..200 {
        app.vm_field_decrement();
    }
    assert_eq!(app.lab_config.nodes[0].start_up_memory_bytes, 512 * 1024 * 1024);
    app.vm_focused_field = VmField::MinMemory;
    for _ in 0..10 {
        app.vm_field_decrement();
    }
    assert_eq!(app.lab_config.nodes[0].minimum_memory_bytes, 256 * 1024 * 1024);
    app.vm_focused_field = VmField::MaxMemory;
    app.vm_field_decrement();
    assert_eq!(app.lab_config.nodes[0].maximum_memory_bytes, 3584 * 1024 * 1024);
    app.vm_focused_field = VmField::Role;
    app.vm_field_increment();
    assert_eq!(app.lab_config.nodes[0].role, "Default");
}

#[test]
fn field_focus_cycles_and_commits_edit() {
    let mut app = App::new();
    app.add_node();
    app.current_screen = Screen::VmConfig;
    assert_eq!(app.vm_focused_field, VmField::NodeName);
    for _ in 0..8 {
        app.vm_field_next();
    }
    assert_eq!(app.vm_focused_field, VmField::NodeName);
    app.vm_field_prev();
    assert_eq!(app.vm_focused_field, VmField::IpAddress);
    app.start_editing();
    assert!(app.is_editing);
    assert_eq!(app.editing_value, "");
    app.push_edit_char('1');
    app.vm_field_next();
    assert!(!app.is_editing);
    assert_eq!(app.lab_config.nodes[0].ip_address, Some("1".to_string()));
    assert_eq!(app.vm_focused_field, VmField::NodeName);
}

#[test]
fn empty_edits_keep_guarded_names() {
    let mut app = App::new();
    app.add_node();
    app.add_network();
    app.current_screen = Screen::VmConfig;
    app.vm_focused_field = VmField::NodeName;
    app.is_editing = true;
    app.confirm_edit();
    assert_eq!(app.lab_config.nodes[0].node_name, "Node01");
    app.current_screen = Screen::Network;
    app.is_editing = true;
    app.confirm_edit();
    assert_eq!(app.lab_config.networks[0].name, "LabSwitch01");
    app.current_screen = Screen::Dashboard;
    app.is_editing = true;
    app.confirm_edit();
    assert_eq!(app.lab_config.environment_name, "MyLab");
    app.current_screen = Screen::Deployment;
    app.is_editing = true;
    app.confirm_edit();
    assert_eq!(app.lab_output_dir, ".");
}

#[test]
fn confirm_without_editing_changes_nothing() {
    let mut app = App::new();
    app.editing_value = "ignored".to_string();
    app.confirm_edit();
    assert_eq!(app.lab_config.environment_name, "MyLab");
    app.push_edit_char('x');
    app.backspace_edit();
    assert_eq!(app.editing_value, "ignored");
}

#[test]
fn start_editing_other_screens() {
    let mut app = App::new();
    app.start_editing();
    assert_eq!(app.editing_value, "MyLab");
    app.cancel_edit();
    app.current_screen = Screen::Deployment;
    app.start_editing();
    assert_eq!(app.editing_value, ".");
    app.cancel_edit();
    app.current_screen = Screen::Media;
    assert!(!app.focused_field_is_text());
    app.start_editing();
    assert!(!app.is_editing);
    app.current_screen = Screen::Network;
    app.start_editing();
    assert!(!app.is_editing);
    app.add_network();
    app.start_editing();
    assert_eq!(app.editing_value, "LabSwitch01");
}

#[test]
fn selection_in_empty_lists() {
    let mut app = App::new();
    app.node_up();
    app.node_down();
    assert_eq!(app.selected_node, None);
    app.network_up();
    app.network_down();
    assert_eq!(app.selected_network, None);
    app.add_node();
    app.add_node();
    app.selected_node = None;
    app.node_up();
    assert_eq!(app.selected_node, Some(0));
    app.selected_node = None;
    app.node_down();
    assert_eq!(app.selected_node, Some(0));
    app.node_down();
    app.node_down();
    assert_eq!(app.selected_node, Some(1));
    app.delete_selected_node();
    assert_eq!(app.selected_node, Some(0));
    assert_eq!(app.lab_config.nodes[0].node_name, "Node01");
}

#[test]
fn media_selection_stays_in_list() {
    let mut app = App::new();
    for _ in 0..20 {
        app.media_down();
    }
    assert_eq!(app.selected_media, Some(6));
    app.selected_media = None;
    app.media_up();
    assert_eq!(app.selected_media, Some(0));
    app.add_node();
    app.selected_media = Some(6);
    app.assign_media_to_node();
    assert_eq!(app.lab_config.nodes[0].media_id, "WIN11_x64_Enterprise_EN_Eval");
}

// ── Deployment actions ─────────────────────────────────────────────────────

#[test]
fn generate_action_logs_written_files() {
    let mut app = App::new();
    let step = app.run_deployment_action();
    assert_eq!(step.stage, Stage::GenerateWrite);
    assert!(matches!(step.effect, Effect::WriteConfigFiles));
    let step = app.advance(step.stage, written());
    assert_eq!(step.stage, Stage::Idle);
    assert!(matches!(step.effect, Effect::Finished));
    assert_eq!(
        app.deployment.log_lines,
        vec![
            "[INFO] Generating configuration files …",
            "[OK] out/MyLab.psd1",
            "[OK] out/MyLab.ps1"
        ]
    );
    assert_eq!(app.deployment.status, DeploymentStatus::NotStarted);
}

#[test]
fn generate_action_logs_write_error() {
    let mut app = App::new();
    let step = app.generate_config_files();
    app.advance(step.stage, Event::FilesWritten(Err("disk full".to_string())));
    assert_eq!(
        app.deployment.log_lines.last().unwrap(),
        "[ERROR] Could not generate files: disk full"
    );
    assert_eq!(app.deployment.status, DeploymentStatus::NotStarted);
}

#[test]
fn start_action_runs_interactive_command() {
    let mut app = App::new();
    app.lab_output_dir = "C:\\Labs".to_string();
    app.selected_action = 1;
    let step = app.run_deployment_action();
    assert_eq!(app.deployment.status, DeploymentStatus::InProgress);
    assert_eq!(step.stage, Stage::StartWrite);
    let step = app.advance(step.stage, written());
    assert_eq!(step.stage, Stage::StartRun);
    let (command, interactive) = run_command(&step);
    assert!(interactive);
    assert_eq!(command, start_lab_command("MyLab", "C:\\Labs"));
    let step = app.advance(step.stage, ps_ok("line one\r\nline two\n"));
    assert_eq!(step.stage, Stage::Idle);
    assert_eq!(app.deployment.status, DeploymentStatus::Completed);
    assert_eq!(
        app.deployment.log_lines[3..],
        [
            "[INFO] Starting lab configuration …".to_string(),
            "line one".to_string(),
            "line two".to_string(),
            "[OK] Lab started successfully.".to_string()
        ]
    );
}

#[test]
fn start_action_failures() {
    let mut app = App::new();
    app.selected_action = 1;
    let step = app.run_deployment_action();
    app.advance(step.stage, Event::FilesWritten(Err("denied".to_string())));
    assert_eq!(
        app.deployment.status,
        DeploymentStatus::Failed("File generation error: denied".to_string())
    );

    let step = app.run_deployment_action();
    let step = app.advance(step.stage, written());
    app.advance(step.stage, ps_failed("bad\nworse"));
    assert_eq!(
        app.deployment.status,
        DeploymentStatus::Failed("PowerShell reported an error".to_string())
    );
    let n = app.deployment.log_lines.len();
    assert_eq!(app.deployment.log_lines[n - 2..], ["[ERROR] bad".to_string(), "[ERROR] worse".to_string()]);

    let step = app.run_deployment_action();
    let step = app.advance(step.stage, written());
    app.advance(step.stage, Event::PowerShellRan(Err("no pwsh".to_string())));
    assert_eq!(app.deployment.status, DeploymentStatus::Failed("Launch error: no pwsh".to_string()));
    assert_eq!(
        app.deployment.log_lines.last().unwrap(),
        "[ERROR] Could not launch PowerShell: no pwsh"
    );
}

#[test]
fn stop_and_delete_actions() {
    let mut app = App::new();
    app.selected_action = 2;
    let step = app.run_deployment_action();
    assert_eq!(run_command(&step), (stop_lab_command("MyLab"), false));
    app.advance(step.stage, ps_ok(""));
    assert_eq!(app.deployment.status, DeploymentStatus::Stopped);
    assert_eq!(app.deployment.log_lines.last().unwrap(), "[OK] Lab stopped.");

    let step = app.run_deployment_action();
    app.advance(step.stage, ps_failed("oops"));
    assert_eq!(app.deployment.status, DeploymentStatus::Failed("Stop command failed".to_string()));

    app.selected_action = 4;
    let step = app.run_deployment_action();
    assert_eq!(step.stage, Stage::DeleteRun);
    assert_eq!(run_command(&step), (remove_lab_command("MyLab"), false));
    app.advance(step.stage, ps_ok(""));
    assert_eq!(app.deployment.status, DeploymentStatus::NotStarted);
    assert_eq!(app.deployment.log_lines.last().unwrap(), "[OK] Lab removed.");

    let step = app.run_deployment_action();
    app.advance(step.stage, ps_failed(""));
    assert_eq!(app.deployment.status, DeploymentStatus::Failed("Delete command failed".to_string()));
}

#[test]
fn reset_action_removes_then_starts() {
    let mut app = App::new();
    app.selected_action = 3;
    let step = app.run_deployment_action();
    assert_eq!(step.stage, Stage::ResetDeleteRun);
    assert_eq!(
        app.deployment.log_lines,
        vec!["[INFO] Resetting lab …", "[INFO] Removing lab …"]
    );
    let step = app.advance(step.stage, ps_ok(""));
    assert_eq!(step.stage, Stage::StartWrite);
    assert!(matches!(step.effect, Effect::WriteConfigFiles));
    assert_eq!(app.deployment.status, DeploymentStatus::InProgress);
    assert_eq!(
        app.deployment.log_lines[2..],
        ["[OK] Lab removed.".to_string(), "[INFO] Generating configuration files …".to_string()]
    );
}

#[test]
fn mismatched_event_ends_action() {
    let mut app = App::new();
    let step = app.advance(Stage::StopRun, written());
    assert_eq!(step.stage, Stage::Idle);
    let step = app.advance(Stage::Idle, ps_ok("x"));
    assert!(matches!(step.effect, Effect::Finished));
    assert!(app.deployment.log_lines.is_empty());
    app.selected_action = 7;
    let step = app.run_deployment_action();
    assert_eq!(step.stage, Stage::Idle);
    assert!(app.deployment.log_lines.is_empty());
}

#[test]
fn renaming_lab_renames_deployment() {
    let mut app = App::new();
    app.start_editing();
    app.backspace_edit();
    app.push_edit_char('2');
    app.confirm_edit();
    assert_eq!(app.lab_config.environment_name, "MyLa2");
    assert_eq!(app.deployment.environment_name, "MyLa2");
    app.selected_action = 2;
    let step = app.run_deployment_action();
    assert_eq!(run_command(&step).0, stop_lab_command("MyLa2"));
}
