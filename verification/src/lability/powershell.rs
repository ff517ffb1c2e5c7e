//! PowerShell command builders. Running a command is the host's part: it
//! launches `powershell_exe()` with `powershell_args(..)` and reports a
//! [`PsResult`].

use vstd::prelude::*;
use crate::text::{self, push_quoted_list};

verus! {

/// Result of running a PowerShell command.
#[derive(Debug, Clone)]
pub struct PsResult {
    pub stdout: String,
    pub stderr: String,
    pub success: bool,
}

/// The command that starts a lab from the files in `output_dir`.
pub open spec fn start_lab_text(env_name: Seq<char>, output_dir: Seq<char>) -> Seq<char> {
    "$ErrorActionPreference = 'Stop'; Import-Module Lability; Set-Location '"@ + output_dir
        + "'; & '.\\"@ + env_name + ".ps1'; Start-LabConfiguration -ConfigurationData '.\\"@
        + env_name + ".psd1' -Path '.\\"@ + env_name + "' -Verbose"@
}

/// The command that stops every VM whose name starts with the lab name.
pub open spec fn stop_lab_text(env_name: Seq<char>) -> Seq<char> {
    "Get-VM | Where-Object { $_.Name -like '"@ + env_name + "*' } | Stop-VM -Force"@
}

/// The command that removes a lab.
pub open spec fn remove_lab_text(env_name: Seq<char>) -> Seq<char> {
    "Import-Module Lability; Remove-LabConfiguration -EnvironmentPath '"@ + env_name
        + "' -Verbose"@
}

/// The command that installs the named modules.
pub open spec fn install_modules_text(names: Seq<Seq<char>>) -> Seq<char> {
    "@("@ + text::quoted_list(names)
        + ") | ForEach-Object { Install-Module -Name $_ -Force -AllowClobber }"@
}

/// The arguments that run `command` in PowerShell; a non-interactive run
/// never prompts.
pub open spec fn ps_args(command: Seq<char>, interactive: bool) -> Seq<Seq<char>> {
    (if interactive {
        Seq::empty()
    } else {
        seq!["-NonInteractive"@]
    }) + seq!["-NoProfile"@, "-ExecutionPolicy"@, "Bypass"@, "-Command"@, command]
}

/// Build the PowerShell command to start a Lability lab.
///
/// `env_name`   – the lab / environment name (used to derive file names).
/// `output_dir` – directory where the `.psd1` and `.ps1` files were written.
pub fn start_lab_command(env_name: &str, output_dir: &str) -> (r: String)
    ensures
        r@ == start_lab_text(env_name@, output_dir@),
{
    let mut s = String::from_str(
        "$ErrorActionPreference = 'Stop'; Import-Module Lability; Set-Location '",
    );
    s.append(output_dir);
    s.append("'; & '.\\");
    s.append(env_name);
    s.append(".ps1'; Start-LabConfiguration -ConfigurationData '.\\");
    s.append(env_name);
    s.append(".psd1' -Path '.\\");
    s.append(env_name);
    s.append("' -Verbose");
    proof {
        assert(s@ =~= start_lab_text(env_name@, output_dir@));
    }
    s
}

/// Build the PowerShell command to stop all VMs in a lab.
pub fn stop_lab_command(environment_name: &str) -> (r: String)
    ensures
        r@ == stop_lab_text(environment_name@),
{
    let mut s = String::from_str("Get-VM | Where-Object { $_.Name -like '");
    s.append(environment_name);
    s.append("*' } | Stop-VM -Force");
    s
}

/// Build the PowerShell command to remove all VMs in a lab.
pub fn remove_lab_command(environment_name: &str) -> (r: String)
    ensures
        r@ == remove_lab_text(environment_name@),
{
    let mut s = String::from_str(
        "Import-Module Lability; Remove-LabConfiguration -EnvironmentPath '",
    );
    s.append(environment_name);
    s.append("' -Verbose");
    s
}

/// Build the PowerShell command to install required DSC modules.
pub fn install_modules_command(module_names: &[String]) -> (r: String)
    ensures
        r@ == install_modules_text(text::strs_view(module_names@)),
{
    let mut s = String::from_str("@(");
    push_quoted_list(&mut s, module_names);
    s.append(") | ForEach-Object { Install-Module -Name $_ -Force -AllowClobber }");
    proof {
        assert(s@ =~= install_modules_text(text::strs_view(module_names@)));
    }
    s
}

/// Build the PowerShell command to check Lability installation status.
pub fn check_lability_command() -> (r: &'static str)
    ensures
        r@ == "Get-Module -ListAvailable -Name Lability | Select-Object -ExpandProperty Version"@,
{
    "Get-Module -ListAvailable -Name Lability | Select-Object -ExpandProperty Version"
}

/// Build the PowerShell command to get available Hyper-V switches.
pub fn get_switches_command() -> (r: &'static str)
    ensures
        r@ == "Get-VMSwitch | Select-Object -ExpandProperty Name"@,
{
    "Get-VMSwitch | Select-Object -ExpandProperty Name"
}

/// The PowerShell executable: always `pwsh` (PowerShell 7+), since Lability
/// needs at least PowerShell 6.1.
pub fn powershell_exe() -> (r: &'static str)
    ensures
        r@ == "pwsh"@,
{
    "pwsh"
}

/// The arguments with which to launch `powershell_exe()` for `command`.
pub fn powershell_args(command: &str, interactive: bool) -> (r: Vec<String>)
    ensures
        text::strs_view(r@) == ps_args(command@, interactive),
{
    let mut args: Vec<String> = Vec::new();
    if !interactive {
        args.push(String::from_str("-NonInteractive"));
    }
    args.push(String::from_str("-NoProfile"));
    args.push(String::from_str("-ExecutionPolicy"));
    args.push(String::from_str("Bypass"));
    args.push(String::from_str("-Command"));
    args.push(String::from_str(command));
    proof {
        assert(text::strs_view(args@) =~= ps_args(command@, interactive));
    }
    args
}

} // verus!
