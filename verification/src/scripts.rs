//! The PowerShell commands that applying and reverting changes run.
use vstd::prelude::*;

verus! {

broadcast use vstd::string::group_string_axioms;

/// The GUID of the Ultimate Performance power scheme.
pub open spec fn ultimate_guid() -> Seq<char> {
    "e9a42b02-d5df-448d-aa00-03f14749eb61"@
}

pub open spec fn power_list_cmd() -> Seq<char> {
    "powercfg /list"@
}

/// Creates the Ultimate Performance scheme, from the High Performance one when
/// the first attempt fails.
pub open spec fn power_duplicate_cmd() -> Seq<char> {
    "powercfg /duplicatescheme e9a42b02-d5df-448d-aa00-03f14749eb61 2>$null; if ($LASTEXITCODE -ne 0) { powercfg /duplicatescheme 8c5e7fda-e8bf-4a96-9a85-a6e23a8c635c e9a42b02-d5df-448d-aa00-03f14749eb61 }"@
}

/// Prints the GUID of the active power scheme.
pub open spec fn power_active_cmd() -> Seq<char> {
    "(powercfg /getactivescheme) -replace '.*: ','' -replace ' \\(.*',''"@
}

pub open spec fn power_set_cmd(guid: Seq<char>) -> Seq<char> {
    "powercfg /setactive "@ + guid
}

/// Prints the names of the subkeys of `HKLM:\path`, one per line.
pub open spec fn list_subkeys_cmd(path: Seq<char>) -> Seq<char> {
    "Get-ChildItem 'HKLM:\\"@ + path + "' | ForEach-Object { $_.PSChildName }"@
}

/// Prints the value of an advanced property of a network adapter.
pub open spec fn nic_read_cmd(adapter: Seq<char>, display: Seq<char>) -> Seq<char> {
    "(Get-NetAdapterAdvancedProperty -Name '"@ + adapter + "' -DisplayName '"@ + display
        + "' -ErrorAction SilentlyContinue).DisplayValue"@
}

/// Sets an advanced property of a network adapter.
pub open spec fn nic_set_cmd(adapter: Seq<char>, display: Seq<char>, value: Seq<char>) -> Seq<char> {
    "Set-NetAdapterAdvancedProperty -Name '"@ + adapter + "' -DisplayName '"@ + display
        + "' -DisplayValue '"@ + value + "' -ErrorAction SilentlyContinue"@
}

/// Turns off both wake-on-LAN properties of a network adapter.
pub open spec fn wol_disable_cmd(adapter: Seq<char>) -> Seq<char> {
    nic_set_cmd(adapter, "Wake on Magic Packet"@, "Disabled"@) + "; "@ + nic_set_cmd(
        adapter,
        "Wake on Pattern Match"@,
        "Disabled"@,
    )
}

/// Sets a flat mouse acceleration curve through `SystemParametersInfo`.
pub open spec fn mouse_curve_cmd() -> Seq<char> {
    "Add-Type -TypeDefinition 'using System;using System.Runtime.InteropServices;public class SPI{[DllImport(\"user32.dll\")]public static extern bool SystemParametersInfo(uint a,uint b,int[] c,uint d);}'; $curve = @(0,0,0,0,0,0,0,0,0,0,0,0,0,0,0,0,0,0,0,0); [SPI]::SystemParametersInfo(0x001D, 0, $curve, 0x03)"@
}

/// Prints the startup type of a service.
pub open spec fn service_query_cmd(service: Seq<char>) -> Seq<char> {
    "(Get-Service '"@ + service + "' -ErrorAction SilentlyContinue).StartType"@
}

/// Stops a service and disables it.
pub open spec fn service_disable_cmd(service: Seq<char>) -> Seq<char> {
    "Stop-Service '"@ + service + "' -Force -ErrorAction SilentlyContinue; Set-Service '"@ + service
        + "' -StartupType Disabled -ErrorAction SilentlyContinue"@
}

/// Sets the startup type of a service.
pub open spec fn service_set_cmd(service: Seq<char>, startup: Seq<char>) -> Seq<char> {
    "Set-Service '"@ + service + "' -StartupType '"@ + startup + "' -ErrorAction SilentlyContinue"@
}

pub open spec fn service_start_cmd(service: Seq<char>) -> Seq<char> {
    "Start-Service '"@ + service + "' -ErrorAction SilentlyContinue"@
}

/// The registry path of the Image File Execution Options of an executable.
pub open spec fn ifeo_path(exe: Seq<char>) -> Seq<char> {
    "SOFTWARE\\Microsoft\\Windows NT\\CurrentVersion\\Image File Execution Options\\"@ + exe
}

/// Gives the process of an executable a high CPU priority, at the key and in its
/// `PerfOptions` subkey.
pub open spec fn priority_cmd(path: Seq<char>) -> Seq<char> {
    "New-Item -Path 'HKLM:\\"@ + path + "' -Force | Out-Null; New-ItemProperty -Path 'HKLM:\\"@ + path
        + "' -Name 'CpuPriorityClass' -Value 3 -PropertyType DWord -Force | Out-Null; New-Item -Path 'HKLM:\\"@
        + path + "\\PerfOptions' -Force | Out-Null; New-ItemProperty -Path 'HKLM:\\"@ + path
        + "\\PerfOptions' -Name 'CpuPriorityClass' -Value 3 -PropertyType DWord -Force | Out-Null"@
}

/// Removes the key `HKLM:\path` with its subkeys.
pub open spec fn remove_key_cmd(path: Seq<char>) -> Seq<char> {
    "Remove-Item -Path 'HKLM:\\"@ + path + "' -Recurse -ErrorAction SilentlyContinue"@
}

/// Removes the value `name` under `hive:\path`.
pub open spec fn remove_value_cmd(hive: Seq<char>, path: Seq<char>, name: Seq<char>) -> Seq<char> {
    "Remove-ItemProperty -Path '"@ + hive + ":\\"@ + path + "' -Name '"@ + name
        + "' -ErrorAction SilentlyContinue"@
}

pub fn power_list_command() -> (r: String)
    ensures
        r@ == power_list_cmd(),
{
    "powercfg /list".to_string()
}

pub fn power_duplicate_command() -> (r: String)
    ensures
        r@ == power_duplicate_cmd(),
{
    "powercfg /duplicatescheme e9a42b02-d5df-448d-aa00-03f14749eb61 2>$null; if ($LASTEXITCODE -ne 0) { powercfg /duplicatescheme 8c5e7fda-e8bf-4a96-9a85-a6e23a8c635c e9a42b02-d5df-448d-aa00-03f14749eb61 }".to_string()
}

pub fn power_active_command() -> (r: String)
    ensures
        r@ == power_active_cmd(),
{
    "(powercfg /getactivescheme) -replace '.*: ','' -replace ' \\(.*',''".to_string()
}

pub fn ultimate_guid_string() -> (r: String)
    ensures
        r@ == ultimate_guid(),
{
    "e9a42b02-d5df-448d-aa00-03f14749eb61".to_string()
}

pub fn power_set_command(guid: &str) -> (r: String)
    ensures
        r@ == power_set_cmd(guid@),
{
    let mut r = "powercfg /setactive ".to_string();
    r.append(guid);
    r
}

pub fn list_subkeys_command(path: &str) -> (r: String)
    ensures
        r@ == list_subkeys_cmd(path@),
{
    let mut r = "Get-ChildItem 'HKLM:\\".to_string();
    r.append(path);
    r.append("' | ForEach-Object { $_.PSChildName }");
    r
}

pub fn nic_read_command(adapter: &str, display: &str) -> (r: String)
    ensures
        r@ == nic_read_cmd(adapter@, display@),
{
    let mut r = "(Get-NetAdapterAdvancedProperty -Name '".to_string();
    r.append(adapter);
    r.append("' -DisplayName '");
    r.append(display);
    r.append("' -ErrorAction SilentlyContinue).DisplayValue");
    r
}

pub fn nic_set_command(adapter: &str, display: &str, value: &str) -> (r: String)
    ensures
        r@ == nic_set_cmd(adapter@, display@, value@),
{
    let mut r = "Set-NetAdapterAdvancedProperty -Name '".to_string();
    r.append(adapter);
    r.append("' -DisplayName '");
    r.append(display);
    r.append("' -DisplayValue '");
    r.append(value);
    r.append("' -ErrorAction SilentlyContinue");
    r
}

pub fn wol_disable_command(adapter: &str) -> (r: String)
    ensures
        r@ == wol_disable_cmd(adapter@),
{
    let mut r = nic_set_command(adapter, "Wake on Magic Packet", "Disabled");
    r.append("; ");
    let second = nic_set_command(adapter, "Wake on Pattern Match", "Disabled");
    r.append(second.as_str());
    r
}

pub fn mouse_curve_command() -> (r: String)
    ensures
        r@ == mouse_curve_cmd(),
{
    "Add-Type -TypeDefinition 'using System;using System.Runtime.InteropServices;public class SPI{[DllImport(\"user32.dll\")]public static extern bool SystemParametersInfo(uint a,uint b,int[] c,uint d);}'; $curve = @(0,0,0,0,0,0,0,0,0,0,0,0,0,0,0,0,0,0,0,0); [SPI]::SystemParametersInfo(0x001D, 0, $curve, 0x03)".to_string()
}

pub fn service_query_command(service: &str) -> (r: String)
    ensures
        r@ == service_query_cmd(service@),
{
    let mut r = "(Get-Service '".to_string();
    r.append(service);
    r.append("' -ErrorAction SilentlyContinue).StartType");
    r
}

pub fn service_disable_command(service: &str) -> (r: String)
    ensures
        r@ == service_disable_cmd(service@),
{
    let mut r = "Stop-Service '".to_string();
    r.append(service);
    r.append("' -Force -ErrorAction SilentlyContinue; Set-Service '");
    r.append(service);
    r.append("' -StartupType Disabled -ErrorAction SilentlyContinue");
    r
}

pub fn service_set_command(service: &str, startup: &str) -> (r: String)
    ensures
        r@ == service_set_cmd(service@, startup@),
{
    let mut r = "Set-Service '".to_string();
    r.append(service);
    r.append("' -StartupType '");
    r.append(startup);
    r.append("' -ErrorAction SilentlyContinue");
    r
}

pub fn service_start_command(service: &str) -> (r: String)
    ensures
        r@ == service_start_cmd(service@),
{
    let mut r = "Start-Service '".to_string();
    r.append(service);
    r.append("' -ErrorAction SilentlyContinue");
    r
}

pub fn ifeo_path_of(exe: &str) -> (r: String)
    ensures
        r@ == ifeo_path(exe@),
{
    let mut r = "SOFTWARE\\Microsoft\\Windows NT\\CurrentVersion\\Image File Execution Options\\".to_string();
    r.append(exe);
    r
}

pub fn priority_command(path: &str) -> (r: String)
    ensures
        r@ == priority_cmd(path@),
{
    let mut r = "New-Item -Path 'HKLM:\\".to_string();
    r.append(path);
    r.append("' -Force | Out-Null; New-ItemProperty -Path 'HKLM:\\");
    r.append(path);
    r.append(
        "' -Name 'CpuPriorityClass' -Value 3 -PropertyType DWord -Force | Out-Null; New-Item -Path 'HKLM:\\",
    );
    r.append(path);
    r.append("\\PerfOptions' -Force | Out-Null; New-ItemProperty -Path 'HKLM:\\");
    r.append(path);
    r.append("\\PerfOptions' -Name 'CpuPriorityClass' -Value 3 -PropertyType DWord -Force | Out-Null");
    r
}

pub fn remove_key_command(path: &str) -> (r: String)
    ensures
        r@ == remove_key_cmd(path@),
{
    let mut r = "Remove-Item -Path 'HKLM:\\".to_string();
    r.append(path);
    r.append("' -Recurse -ErrorAction SilentlyContinue");
    r
}

pub fn remove_value_command(hive: &str, path: &str, name: &str) -> (r: String)
    ensures
        r@ == remove_value_cmd(hive@, path@, name@),
{
    let mut r = "Remove-ItemProperty -Path '".to_string();
    r.append(hive);
    r.append(":\\");
    r.append(path);
    r.append("' -Name '");
    r.append(name);
    r.append("' -ErrorAction SilentlyContinue");
    r
}

} // verus!
