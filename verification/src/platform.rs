//! The platform a binary is provisioned for, and the mapping from a platform
//! pair to the release artifact that serves it.

use vstd::prelude::*;
use vstd::string::StringExecFns;

verus! {

/// Operating system of the machine the tool will run on, as the host reports it.
#[derive(Clone, Copy, Debug, PartialEq, Eq, Structural)]
pub enum Os {
    Mac,
    Linux,
    Windows,
}

/// CPU architecture of the machine, as the host reports it.
#[derive(Clone, Copy, Debug, PartialEq, Eq, Structural)]
pub enum Arch {
    Aarch64,
    X86,
    X8664,
}

/// How a downloaded artifact is unpacked: an `Uncompressed` download is
/// fetched as-is and needs an external decompression step afterwards; a `Zip`
/// download is unpacked natively by the host.
#[derive(Clone, Copy, Debug, PartialEq, Eq, Structural)]
pub enum DownloadKind {
    Uncompressed,
    Zip,
}

/// The platform pairs for which the upstream project publishes an artifact.
pub open spec fn spec_supported(os: Os, arch: Arch) -> bool {
    match (os, arch) {
        (Os::Mac, Arch::Aarch64) => true,
        (Os::Mac, Arch::X8664) => true,
        (Os::Linux, Arch::X8664) => true,
        (Os::Windows, Arch::X8664) => true,
        _ => false,
    }
}

/// The asset-name suffix that identifies the artifact for a supported pair.
pub open spec fn spec_asset_suffix(os: Os, arch: Arch) -> Seq<char>
    recommends
        spec_supported(os, arch),
{
    match (os, arch) {
        (Os::Mac, Arch::Aarch64) => "aarch64-darwin.tar.bz2"@,
        (Os::Mac, Arch::X8664) => "x86_64-darwin.tar.bz2"@,
        (Os::Linux, Arch::X8664) => "x86_64-linux.tar.bz2"@,
        (Os::Windows, Arch::X8664) => "x86_64-windows.zip"@,
        _ => Seq::<char>::empty(),
    }
}

/// How the artifact for a supported pair is unpacked: the Windows artifact is
/// a zip the host unpacks natively, every other artifact is a tarball that
/// needs the external decompression step.
pub open spec fn spec_download_kind(os: Os, arch: Arch) -> DownloadKind {
    match (os, arch) {
        (Os::Windows, Arch::X8664) => DownloadKind::Zip,
        _ => DownloadKind::Uncompressed,
    }
}

/// Name of the language-server binary on the given operating system.
pub open spec fn spec_binary_name(os: Os) -> Seq<char> {
    match os {
        Os::Windows => "dhall-lsp-server.exe"@,
        _ => "dhall-lsp-server"@,
    }
}

pub open spec fn spec_os_name(os: Os) -> Seq<char> {
    match os {
        Os::Mac => "Mac"@,
        Os::Linux => "Linux"@,
        Os::Windows => "Windows"@,
    }
}

pub open spec fn spec_arch_name(arch: Arch) -> Seq<char> {
    match arch {
        Arch::Aarch64 => "Aarch64"@,
        Arch::X86 => "X86"@,
        Arch::X8664 => "X8664"@,
    }
}

/// Name of the language-server binary on the given operating system:
/// `dhall-lsp-server.exe` on Windows, `dhall-lsp-server` everywhere else.
pub fn binary_name(os: Os) -> (r: &'static str)
    ensures
        r@ == spec_binary_name(os),
{
    match os {
        Os::Windows => "dhall-lsp-server.exe",
        _ => "dhall-lsp-server",
    }
}

/// Maps a platform pair to the asset suffix and download kind that serve it.
/// An unsupported pair fails at once, with an error naming both values.
pub fn asset_suffix(os: Os, arch: Arch) -> (r: Result<
    (String, DownloadKind),
    crate::error::ResolveError,
>)
    ensures
        r is Ok <==> spec_supported(os, arch),
        r matches Ok(p) ==> p.0@ == spec_asset_suffix(os, arch) && p.1 == spec_download_kind(
            os,
            arch,
        ),
        r matches Err(e) ==> e@ == (crate::error::ErrorView::UnsupportedPlatform { os, arch }),
{
    match (os, arch) {
        (Os::Mac, Arch::Aarch64) => Ok(
            (String::from_str("aarch64-darwin.tar.bz2"), DownloadKind::Uncompressed),
        ),
        (Os::Mac, Arch::X8664) => Ok(
            (String::from_str("x86_64-darwin.tar.bz2"), DownloadKind::Uncompressed),
        ),
        (Os::Linux, Arch::X8664) => Ok(
            (String::from_str("x86_64-linux.tar.bz2"), DownloadKind::Uncompressed),
        ),
        (Os::Windows, Arch::X8664) => Ok(
            (String::from_str("x86_64-windows.zip"), DownloadKind::Zip),
        ),
        (os, arch) => Err(crate::error::ResolveError::UnsupportedPlatform { os, arch }),
    }
}

/// The operating system's name, as it appears in error messages.
pub fn os_name(os: Os) -> (r: &'static str)
    ensures
        r@ == spec_os_name(os),
{
    match os {
        Os::Mac => "Mac",
        Os::Linux => "Linux",
        Os::Windows => "Windows",
    }
}

/// The architecture's name, as it appears in error messages.
pub fn arch_name(arch: Arch) -> (r: &'static str)
    ensures
        r@ == spec_arch_name(arch),
{
    match arch {
        Arch::Aarch64 => "Aarch64",
        Arch::X86 => "X86",
        Arch::X8664 => "X8664",
    }
}

} // verus!
