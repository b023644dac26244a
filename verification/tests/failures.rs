//! The failure paths of a resolution: each error comes exactly on the inputs
//! the workflow documents, with a message naming the offending identifiers.

use dhall_lsp::error::ResolveError;
use dhall_lsp::platform::{Arch, Os};
use dhall_lsp::release::{Asset, ReleaseInfo};
use dhall_lsp::resolver::{Action, DecompressOutcome, DhallLanguageServer, Event, PruneError};

fn start_provisioning(server: &mut DhallLanguageServer, os: Os, arch: Arch) -> dhall_lsp::resolver::Resolution {
    let (r, _) = server.start_resolution(os, arch);
    let (r, a) = server.step(r, Event::WhichResult { found: None });
    assert!(matches!(a, Action::FetchLatestRelease { .. }));
    r
}

#[test]
fn unsupported_platform_fails_before_any_fetch() {
    let mut server = DhallLanguageServer::new();
    let (r, a) = server.start_resolution(Os::Linux, Arch::Aarch64);
    assert!(!matches!(a, Action::FetchLatestRelease { .. } | Action::DownloadAsset { .. }));
    let (_, a) = server.step(r, Event::WhichResult { found: None });
    match a {
        Action::Finish { result: Err(e) } => {
            assert_eq!(e, ResolveError::UnsupportedPlatform { os: Os::Linux, arch: Arch::Aarch64 });
            assert_eq!(e.message(), "unsupported platform/arch combination: Linux/Aarch64");
        }
        other => panic!("expected an immediate failure, got {other:?}"),
    }
}

#[test]
fn windows_on_arm_is_unsupported() {
    let mut server = DhallLanguageServer::new();
    let (r, _) = server.start_resolution(Os::Windows, Arch::Aarch64);
    let (_, a) = server.step(r, Event::WhichResult { found: None });
    match a {
        Action::Finish { result: Err(e) } => {
            assert_eq!(e.message(), "unsupported platform/arch combination: Windows/Aarch64");
        }
        other => panic!("expected an immediate failure, got {other:?}"),
    }
}

#[test]
fn release_fetch_failure_is_reported_verbatim() {
    let mut server = DhallLanguageServer::new();
    let r = start_provisioning(&mut server, Os::Linux, Arch::X8664);
    let (_, a) = server.step(
        r,
        Event::ReleaseFetched { result: Err("rate limit exceeded".to_string()) },
    );
    match a {
        Action::Finish { result: Err(e) } => {
            assert_eq!(e, ResolveError::ReleaseFetchFailed { cause: "rate limit exceeded".to_string() });
            assert_eq!(e.message(), "rate limit exceeded");
        }
        other => panic!("expected a failure, got {other:?}"),
    }
}

#[test]
fn missing_asset_names_the_exact_suffix() {
    let mut server = DhallLanguageServer::new();
    let r = start_provisioning(&mut server, Os::Linux, Arch::X8664);
    let release = ReleaseInfo {
        version: "1.42.2".to_string(),
        assets: vec![
            Asset {
                name: "dhall-lsp-server-1.42.2-x86_64-darwin.tar.bz2".to_string(),
                download_url: "https://example.invalid/mac".to_string(),
            },
            // Right suffix, wrong prefix: must not be selected either.
            Asset {
                name: "dhall-json-1.42.2-x86_64-linux.tar.bz2".to_string(),
                download_url: "https://example.invalid/json".to_string(),
            },
        ],
    };
    let (_, a) = server.step(r, Event::ReleaseFetched { result: Ok(release) });
    match a {
        Action::Finish { result: Err(e) } => {
            assert_eq!(
                e,
                ResolveError::NoMatchingAsset { suffix: "x86_64-linux.tar.bz2".to_string() }
            );
            assert_eq!(
                e.message(),
                "no asset found matching dhall-lsp-server-*-x86_64-linux.tar.bz2"
            );
        }
        other => panic!("expected a failure, got {other:?}"),
    }
}

#[test]
fn download_failure_is_fatal() {
    let mut server = DhallLanguageServer::new();
    let r = start_provisioning(&mut server, Os::Mac, Arch::X8664);
    let release = ReleaseInfo {
        version: "1.42.2".to_string(),
        assets: vec![Asset {
            name: "dhall-lsp-server-1.42.2-x86_64-darwin.tar.bz2".to_string(),
            download_url: "https://example.invalid/mac".to_string(),
        }],
    };
    let (r, _) = server.step(r, Event::ReleaseFetched { result: Ok(release) });
    let (r, _) = server.step(r, Event::BinaryExists { exists_on_disk: false });
    let (_, a) = server.step(
        r,
        Event::Downloaded { result: Err("connection reset".to_string()) },
    );
    match a {
        Action::Finish { result: Err(e) } => {
            assert_eq!(e.message(), "failed to download file: connection reset");
        }
        other => panic!("expected a failure, got {other:?}"),
    }
}

fn linux_at_decompression(server: &mut DhallLanguageServer) -> dhall_lsp::resolver::Resolution {
    let r = start_provisioning(server, Os::Linux, Arch::X8664);
    let release = ReleaseInfo {
        version: "1.42.2".to_string(),
        assets: vec![Asset {
            name: "dhall-lsp-server-1.42.2-x86_64-linux.tar.bz2".to_string(),
            download_url: "https://example.invalid/linux".to_string(),
        }],
    };
    let (r, _) = server.step(r, Event::ReleaseFetched { result: Ok(release) });
    let (r, _) = server.step(r, Event::BinaryExists { exists_on_disk: false });
    let (r, a) = server.step(r, Event::Downloaded { result: Ok(()) });
    assert!(matches!(a, Action::RunDecompression { .. }));
    r
}

#[test]
fn nonzero_decompression_status_names_archive_and_status() {
    let mut server = DhallLanguageServer::new();
    let r = linux_at_decompression(&mut server);
    let (_, a) = server.step(
        r,
        Event::DecompressFinished { outcome: DecompressOutcome::Exited { status: 2 } },
    );
    match a {
        Action::Finish { result: Err(e) } => {
            assert_eq!(
                e,
                ResolveError::DecompressFailed {
                    archive_path:
                        "dhall-haskell-1.42.2/dhall-lsp-server-1.42.2-x86_64-linux.tar.bz2"
                            .to_string(),
                    status: 2,
                }
            );
            assert_eq!(
                e.message(),
                "failed to decompress dhall-haskell-1.42.2/dhall-lsp-server-1.42.2-x86_64-linux.tar.bz2: status 2"
            );
        }
        other => panic!("expected a failure, got {other:?}"),
    }
}

#[test]
fn negative_status_renders_with_a_minus_sign() {
    let mut server = DhallLanguageServer::new();
    let r = linux_at_decompression(&mut server);
    let (_, a) = server.step(
        r,
        Event::DecompressFinished { outcome: DecompressOutcome::Exited { status: -1 } },
    );
    match a {
        Action::Finish { result: Err(e) } => {
            assert_eq!(
                e.message(),
                "failed to decompress dhall-haskell-1.42.2/dhall-lsp-server-1.42.2-x86_64-linux.tar.bz2: status -1"
            );
        }
        other => panic!("expected a failure, got {other:?}"),
    }
}

#[test]
fn decompression_launch_failure_names_archive_and_cause() {
    let mut server = DhallLanguageServer::new();
    let r = linux_at_decompression(&mut server);
    let (_, a) = server.step(
        r,
        Event::DecompressFinished {
            outcome: DecompressOutcome::LaunchFailed { cause: "tar: command not found".to_string() },
        },
    );
    match a {
        Action::Finish { result: Err(e) } => {
            assert_eq!(
                e.message(),
                "failed to decompress dhall-haskell-1.42.2/dhall-lsp-server-1.42.2-x86_64-linux.tar.bz2: tar: command not found"
            );
        }
        other => panic!("expected a failure, got {other:?}"),
    }
}

#[test]
fn working_directory_listing_failure_is_fatal() {
    let mut server = DhallLanguageServer::new();
    let r = linux_at_decompression(&mut server);
    let (r, _) = server.step(
        r,
        Event::DecompressFinished { outcome: DecompressOutcome::Exited { status: 0 } },
    );
    let (_, a) = server.step(
        r,
        Event::PruneFinished {
            result: Err(PruneError::ListDir { cause: "permission denied".to_string() }),
        },
    );
    match a {
        Action::Finish { result: Err(e) } => {
            assert_eq!(e.message(), "failed to list working directory permission denied");
        }
        other => panic!("expected a failure, got {other:?}"),
    }
}

#[test]
fn directory_entry_failure_is_fatal() {
    let mut server = DhallLanguageServer::new();
    let r = linux_at_decompression(&mut server);
    let (r, _) = server.step(
        r,
        Event::DecompressFinished { outcome: DecompressOutcome::Exited { status: 0 } },
    );
    let (_, a) = server.step(
        r,
        Event::PruneFinished {
            result: Err(PruneError::ReadEntry { cause: "stale handle".to_string() }),
        },
    );
    match a {
        Action::Finish { result: Err(e) } => {
            assert_eq!(e.message(), "failed to load directory entry stale handle");
        }
        other => panic!("expected a failure, got {other:?}"),
    }
}
