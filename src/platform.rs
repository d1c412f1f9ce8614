//! Platform identification and the naming scheme of release assets.
use vstd::prelude::*;

verus! {

/// Name of the companion executable, and prefix of every asset and install directory.
pub const BINARY_NAME: &'static str = "github-gas-server";

/// Operating system of the host.
#[derive(Clone, Copy, Debug, PartialEq, Eq)]
pub enum Os {
    Mac,
    Linux,
    Windows,
}

/// Processor architecture of the host.
#[derive(Clone, Copy, Debug, PartialEq, Eq)]
pub enum Arch {
    Aarch64,
    X8664,
    Other,
}

pub open spec fn os_segment_spec(os: Os) -> Seq<char> {
    match os {
        Os::Mac => "darwin"@,
        Os::Linux => "linux"@,
        Os::Windows => "windows"@,
    }
}

pub open spec fn arch_segment_spec(arch: Arch) -> Seq<char> {
    match arch {
        Arch::Aarch64 => "arm64"@,
        Arch::X8664 => "amd64"@,
        Arch::Other => "unknown"@,
    }
}

/// File extension of the executable asset: none on Unix-like systems,
/// the executable suffix on Windows.
pub open spec fn extension_spec(os: Os) -> Seq<char> {
    match os {
        Os::Windows => ".exe"@,
        _ => ""@,
    }
}

/// `<binary>-<os>-<arch><extension>`
pub open spec fn asset_name_spec(os: Os, arch: Arch) -> Seq<char> {
    BINARY_NAME@ + "-"@ + os_segment_spec(os) + "-"@ + arch_segment_spec(arch) + extension_spec(os)
}

/// The operating-system segment of an asset name.
pub fn os_segment(os: Os) -> (r: &'static str)
    ensures
        r@ == os_segment_spec(os),
{
    match os {
        Os::Mac => "darwin",
        Os::Linux => "linux",
        Os::Windows => "windows",
    }
}

/// The architecture segment of an asset name; an unrecognised architecture is `unknown`.
pub fn arch_segment(arch: Arch) -> (r: &'static str)
    ensures
        r@ == arch_segment_spec(arch),
{
    match arch {
        Arch::Aarch64 => "arm64",
        Arch::X8664 => "amd64",
        Arch::Other => "unknown",
    }
}

/// The file extension of the asset for an operating system.
pub fn extension(os: Os) -> (r: &'static str)
    ensures
        r@ == extension_spec(os),
{
    match os {
        Os::Windows => ".exe",
        _ => "",
    }
}

/// The name of the release asset that holds the executable for a platform.
pub fn asset_name(os: Os, arch: Arch) -> (r: String)
    ensures
        r@ == asset_name_spec(os, arch),
{
    let mut name = String::from_str(BINARY_NAME);
    name.append("-");
    name.append(os_segment(os));
    name.append("-");
    name.append(arch_segment(arch));
    name.append(extension(os));
    name
}

} // verus!
