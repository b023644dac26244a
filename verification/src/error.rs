//! The ways a resolution can fail, and the message each failure carries.

use vstd::prelude::*;
use vstd::string::StringExecFns;

use crate::platform::Arch;
use crate::platform::Os;
use crate::platform::arch_name;
use crate::platform::os_name;
use crate::platform::spec_arch_name;
use crate::platform::spec_os_name;
use crate::strutil::i32_to_dec;
use crate::strutil::spec_idec;

verus! {

/// A terminal failure of one resolution call.  Every variant carries the
/// identifiers a caller needs to diagnose it.
#[derive(Debug, PartialEq, Eq)]
pub enum ResolveError {
    /// The host asked for a language server this library does not manage.
    UnknownLanguageServer { id: String },
    /// No artifact exists for this platform pair; never retried.
    UnsupportedPlatform { os: Os, arch: Arch },
    /// The release-metadata lookup itself failed; the cause is reported verbatim.
    ReleaseFetchFailed { cause: String },
    /// The release has no asset with the required name shape.
    NoMatchingAsset { suffix: String },
    /// The selected asset could not be downloaded.
    DownloadFailed { cause: String },
    /// The external decompression program could not be started.
    DecompressLaunchFailed { archive_path: String, cause: String },
    /// The external decompression program exited with a nonzero status.
    DecompressFailed { archive_path: String, status: i32 },
    /// Listing the working directory during cleanup failed.
    WorkingDirListFailed { cause: String },
    /// Reading one entry of the working directory during cleanup failed.
    DirEntryFailed { cause: String },
}

/// Mathematical image of a [`ResolveError`]: the same variants over
/// character sequences.
pub enum ErrorView {
    UnknownLanguageServer { id: Seq<char> },
    UnsupportedPlatform { os: Os, arch: Arch },
    ReleaseFetchFailed { cause: Seq<char> },
    NoMatchingAsset { suffix: Seq<char> },
    DownloadFailed { cause: Seq<char> },
    DecompressLaunchFailed { archive_path: Seq<char>, cause: Seq<char> },
    DecompressFailed { archive_path: Seq<char>, status: i32 },
    WorkingDirListFailed { cause: Seq<char> },
    DirEntryFailed { cause: Seq<char> },
}

impl View for ResolveError {
    type V = ErrorView;

    open spec fn view(&self) -> ErrorView {
        match self {
            ResolveError::UnknownLanguageServer { id } => ErrorView::UnknownLanguageServer {
                id: id@,
            },
            ResolveError::UnsupportedPlatform { os, arch } => ErrorView::UnsupportedPlatform {
                os: *os,
                arch: *arch,
            },
            ResolveError::ReleaseFetchFailed { cause } => ErrorView::ReleaseFetchFailed {
                cause: cause@,
            },
            ResolveError::NoMatchingAsset { suffix } => ErrorView::NoMatchingAsset {
                suffix: suffix@,
            },
            ResolveError::DownloadFailed { cause } => ErrorView::DownloadFailed { cause: cause@ },
            ResolveError::DecompressLaunchFailed {
                archive_path,
                cause,
            } => ErrorView::DecompressLaunchFailed { archive_path: archive_path@, cause: cause@ },
            ResolveError::DecompressFailed { archive_path, status } => ErrorView::DecompressFailed {
                archive_path: archive_path@,
                status: *status,
            },
            ResolveError::WorkingDirListFailed { cause } => ErrorView::WorkingDirListFailed {
                cause: cause@,
            },
            ResolveError::DirEntryFailed { cause } => ErrorView::DirEntryFailed { cause: cause@ },
        }
    }
}

/// The message each failure renders to, mirroring the variant's fields.
pub open spec fn spec_message(e: ErrorView) -> Seq<char> {
    match e {
        ErrorView::UnknownLanguageServer { id } => "unknown language server: "@ + id,
        ErrorView::UnsupportedPlatform { os, arch } => "unsupported platform/arch combination: "@
            + spec_os_name(os) + "/"@ + spec_arch_name(arch),
        ErrorView::ReleaseFetchFailed { cause } => cause,
        ErrorView::NoMatchingAsset { suffix } => "no asset found matching dhall-lsp-server-*-"@
            + suffix,
        ErrorView::DownloadFailed { cause } => "failed to download file: "@ + cause,
        ErrorView::DecompressLaunchFailed { archive_path, cause } => "failed to decompress "@
            + archive_path + ": "@ + cause,
        ErrorView::DecompressFailed { archive_path, status } => "failed to decompress "@
            + archive_path + ": status "@ + spec_idec(status as int),
        ErrorView::WorkingDirListFailed { cause } => "failed to list working directory "@ + cause,
        ErrorView::DirEntryFailed { cause } => "failed to load directory entry "@ + cause,
    }
}

impl ResolveError {
    /// Renders the failure as the descriptive string surfaced to the host.
    pub fn message(&self) -> (r: String)
        ensures
            r@ == spec_message(self@),
    {
        match self {
            ResolveError::UnknownLanguageServer { id } => String::from_str(
                "unknown language server: ",
            ).concat(id.as_str()),
            ResolveError::UnsupportedPlatform { os, arch } => String::from_str(
                "unsupported platform/arch combination: ",
            ).concat(os_name(*os)).concat("/").concat(arch_name(*arch)),
            ResolveError::ReleaseFetchFailed { cause } => cause.clone(),
            ResolveError::NoMatchingAsset { suffix } => String::from_str(
                "no asset found matching dhall-lsp-server-*-",
            ).concat(suffix.as_str()),
            ResolveError::DownloadFailed { cause } => String::from_str(
                "failed to download file: ",
            ).concat(cause.as_str()),
            ResolveError::DecompressLaunchFailed { archive_path, cause } => String::from_str(
                "failed to decompress ",
            ).concat(archive_path.as_str()).concat(": ").concat(cause.as_str()),
            ResolveError::DecompressFailed { archive_path, status } => String::from_str(
                "failed to decompress ",
            ).concat(archive_path.as_str()).concat(": status ").concat(
                i32_to_dec(*status).as_str(),
            ),
            ResolveError::WorkingDirListFailed { cause } => String::from_str(
                "failed to list working directory ",
            ).concat(cause.as_str()),
            ResolveError::DirEntryFailed { cause } => String::from_str(
                "failed to load directory entry ",
            ).concat(cause.as_str()),
        }
    }
}

} // verus!
