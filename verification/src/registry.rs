//! Registry reads and writes, done through PowerShell: the commands that do
//! them, and what their output means.
use vstd::prelude::*;
use crate::text::{decimal, decimal_string, is_blank_text, parse_u32, parse_u32_chars, trim, chars_of, trim_chars, trim_str};

verus! {

/// The command that prints the value `name` under `hive:\path`.
pub open spec fn read_registry_cmd(hive: Seq<char>, path: Seq<char>, name: Seq<char>) -> Seq<char> {
    "(Get-ItemProperty -Path '"@ + hive + ":\\"@ + path + "' -Name '"@ + name
        + "' -ErrorAction SilentlyContinue).'"@ + name + "'"@
}

/// The command that creates `hive:\path` if needed and sets the DWORD `name`.
pub open spec fn write_dword_cmd(hive: Seq<char>, path: Seq<char>, name: Seq<char>, value: u32) -> Seq<char> {
    "New-Item -Path '"@ + hive + ":\\"@ + path + "' -Force -ErrorAction SilentlyContinue | Out-Null; New-ItemProperty -Path '"@
        + hive + ":\\"@ + path + "' -Name '"@ + name + "' -Value "@ + decimal(value as nat)
        + " -PropertyType DWord -Force -ErrorAction SilentlyContinue | Out-Null"@
}

/// The command that creates `hive:\path` if needed and sets the string `name`.
pub open spec fn write_string_cmd(hive: Seq<char>, path: Seq<char>, name: Seq<char>, value: Seq<char>) -> Seq<char> {
    "New-Item -Path '"@ + hive + ":\\"@ + path + "' -Force -ErrorAction SilentlyContinue | Out-Null; Set-ItemProperty -Path '"@
        + hive + ":\\"@ + path + "' -Name '"@ + name + "' -Value '"@ + value
        + "' -Force -ErrorAction SilentlyContinue"@
}

/// The DWORD that a read printed: nothing when the trimmed output is empty,
/// else its parse as a `u32`.
pub open spec fn dword_output(out: Seq<char>) -> Option<u32> {
    let t = trim(out);
    if t.len() == 0 {
        None
    } else {
        parse_u32(t)
    }
}

/// The string that a read printed: nothing when the trimmed output is empty.
pub open spec fn string_output(out: Seq<char>) -> Option<Seq<char>> {
    let t = trim(out);
    if t.len() == 0 {
        None
    } else {
        Some(t)
    }
}

/// The command that reads the value `name` under `hive:\path`.
pub fn read_registry_command(hive: &str, path: &str, name: &str) -> (r: String)
    ensures
        r@ == read_registry_cmd(hive@, path@, name@),
{
    let mut r = String::new();
    r.append("(Get-ItemProperty -Path '");
    r.append(hive);
    r.append(":\\");
    r.append(path);
    r.append("' -Name '");
    r.append(name);
    r.append("' -ErrorAction SilentlyContinue).'");
    r.append(name);
    r.append("'");
    r
}

/// The DWORD that the output of a registry read holds.
pub fn read_registry_dword(output: &str) -> (r: Option<u32>)
    ensures
        r == dword_output(output@),
{
    let v = chars_of(output);
    let t = trim_chars(&v);
    if t.len() == 0 {
        None
    } else {
        parse_u32_chars(&t)
    }
}

/// The string that the output of a registry read holds.
pub fn read_registry_string(output: &str) -> (r: Option<String>)
    ensures
        match r {
            Some(s) => string_output(output@) == Some(s@),
            None => string_output(output@) is None,
        },
{
    let t = trim_str(output);
    if is_blank_text(t.as_str()) {
        None
    } else {
        Some(t)
    }
}

/// The command that writes the DWORD `name` under `hive:\path`.
pub fn write_registry_dword(hive: &str, path: &str, name: &str, value: u32) -> (r: String)
    ensures
        r@ == write_dword_cmd(hive@, path@, name@, value),
{
    let mut r = String::new();
    r.append("New-Item -Path '");
    r.append(hive);
    r.append(":\\");
    r.append(path);
    r.append("' -Force -ErrorAction SilentlyContinue | Out-Null; New-ItemProperty -Path '");
    r.append(hive);
    r.append(":\\");
    r.append(path);
    r.append("' -Name '");
    r.append(name);
    r.append("' -Value ");
    let d = decimal_string(value as u64);
    r.append(d.as_str());
    r.append(" -PropertyType DWord -Force -ErrorAction SilentlyContinue | Out-Null");
    r
}

/// The command that writes the string `name` under `hive:\path`.
pub fn write_registry_string(hive: &str, path: &str, name: &str, value: &str) -> (r: String)
    ensures
        r@ == write_string_cmd(hive@, path@, name@, value@),
{
    let mut r = String::new();
    r.append("New-Item -Path '");
    r.append(hive);
    r.append(":\\");
    r.append(path);
    r.append("' -Force -ErrorAction SilentlyContinue | Out-Null; Set-ItemProperty -Path '");
    r.append(hive);
    r.append(":\\");
    r.append(path);
    r.append("' -Name '");
    r.append(name);
    r.append("' -Value '");
    r.append(value);
    r.append("' -Force -ErrorAction SilentlyContinue");
    r
}

} // verus!
