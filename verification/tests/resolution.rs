//! Driving the resolution machine through whole scenarios: every action it
//! emits is checked against the documented workflow.

use dhall_lsp::platform::{Arch, DownloadKind, Os};
use dhall_lsp::release::{Asset, ReleaseInfo};
use dhall_lsp::resolver::{Action, DecompressOutcome, DhallLanguageServer, Event};

fn linux_release() -> ReleaseInfo {
    ReleaseInfo {
        version: "1.42.2".to_string(),
        assets: vec![
            Asset {
                name: "dhall-lsp-server-1.42.2-aarch64-darwin.tar.bz2".to_string(),
                download_url: "https://example.invalid/mac-arm".to_string(),
            },
            Asset {
                name: "dhall-lsp-server-1.42.2-x86_64-linux.tar.bz2".to_string(),
                download_url: "https://example.invalid/linux".to_string(),
            },
            Asset {
                name: "dhall-1.42.2-x86_64-linux.tar.bz2".to_string(),
                download_url: "https://example.invalid/dhall-itself".to_string(),
            },
        ],
    }
}

/// Runs one full provisioning pass on Linux/X86-64 and returns the resolved
/// path, asserting every emitted action along the way.
fn provision_linux(server: &mut DhallLanguageServer) -> String {
    let (r, a) = server.start_resolution(Os::Linux, Arch::X8664);
    assert_eq!(a, Action::FindInPath { binary_name: "dhall-lsp-server".to_string() });

    let (r, a) = server.step(r, Event::WhichResult { found: None });
    assert_eq!(
        a,
        Action::FetchLatestRelease {
            repo: "dhall-lang/dhall-haskell".to_string(),
            require_assets: true,
            pre_release: false,
        }
    );

    let (r, a) = server.step(r, Event::ReleaseFetched { result: Ok(linux_release()) });
    assert_eq!(
        a,
        Action::StatBinary { path: "dhall-haskell-1.42.2/bin/dhall-lsp-server".to_string() }
    );

    let (r, a) = server.step(r, Event::BinaryExists { exists_on_disk: false });
    assert_eq!(
        a,
        Action::DownloadAsset {
            url: "https://example.invalid/linux".to_string(),
            destination_dir: "dhall-haskell-1.42.2".to_string(),
            kind: DownloadKind::Uncompressed,
        }
    );

    let (r, a) = server.step(r, Event::Downloaded { result: Ok(()) });
    assert_eq!(
        a,
        Action::RunDecompression {
            archive_path: "dhall-haskell-1.42.2/dhall-lsp-server-1.42.2-x86_64-linux.tar.bz2"
                .to_string(),
        }
    );

    let (r, a) = server.step(
        r,
        Event::DecompressFinished { outcome: DecompressOutcome::Exited { status: 0 } },
    );
    assert_eq!(a, Action::PruneWorkingDir { keep: "dhall-haskell-1.42.2".to_string() });

    let (_, a) = server.step(r, Event::PruneFinished { result: Ok(()) });
    match a {
        Action::Finish { result: Ok(path) } => path,
        other => panic!("expected a successful finish, got {other:?}"),
    }
}

#[test]
fn linux_provisioning_yields_documented_paths() {
    let mut server = DhallLanguageServer::new();
    let path = provision_linux(&mut server);
    assert_eq!(path, "dhall-haskell-1.42.2/bin/dhall-lsp-server");
}

#[test]
fn user_path_wins_without_any_network_action() {
    let mut server = DhallLanguageServer::new();
    let (r, a) = server.start_resolution(Os::Mac, Arch::Aarch64);
    assert_eq!(a, Action::FindInPath { binary_name: "dhall-lsp-server".to_string() });
    let (_, a) = server.step(
        r,
        Event::WhichResult { found: Some("/usr/local/bin/dhall-lsp-server".to_string()) },
    );
    assert_eq!(
        a,
        Action::Finish { result: Ok("/usr/local/bin/dhall-lsp-server".to_string()) }
    );
}

#[test]
fn windows_uses_exe_name_and_native_zip_unpacking() {
    let mut server = DhallLanguageServer::new();
    let (r, a) = server.start_resolution(Os::Windows, Arch::X8664);
    assert_eq!(a, Action::FindInPath { binary_name: "dhall-lsp-server.exe".to_string() });

    let (r, _) = server.step(r, Event::WhichResult { found: None });
    let release = ReleaseInfo {
        version: "1.42.2".to_string(),
        assets: vec![Asset {
            name: "dhall-lsp-server-1.42.2-x86_64-windows.zip".to_string(),
            download_url: "https://example.invalid/windows".to_string(),
        }],
    };
    let (r, a) = server.step(r, Event::ReleaseFetched { result: Ok(release) });
    assert_eq!(
        a,
        Action::StatBinary { path: "dhall-haskell-1.42.2/bin/dhall-lsp-server.exe".to_string() }
    );

    let (r, a) = server.step(r, Event::BinaryExists { exists_on_disk: false });
    assert_eq!(
        a,
        Action::DownloadAsset {
            url: "https://example.invalid/windows".to_string(),
            destination_dir: "dhall-haskell-1.42.2".to_string(),
            kind: DownloadKind::Zip,
        }
    );

    // The host unpacks a zip natively: no decompression action, straight to cleanup.
    let (r, a) = server.step(r, Event::Downloaded { result: Ok(()) });
    assert_eq!(a, Action::PruneWorkingDir { keep: "dhall-haskell-1.42.2".to_string() });

    let (_, a) = server.step(r, Event::PruneFinished { result: Ok(()) });
    assert_eq!(
        a,
        Action::Finish { result: Ok("dhall-haskell-1.42.2/bin/dhall-lsp-server.exe".to_string()) }
    );
}

#[test]
fn existing_binary_skips_download_and_decompression() {
    let mut server = DhallLanguageServer::new();
    let (r, _) = server.start_resolution(Os::Linux, Arch::X8664);
    let (r, _) = server.step(r, Event::WhichResult { found: None });
    let (r, _) = server.step(r, Event::ReleaseFetched { result: Ok(linux_release()) });
    let (_, a) = server.step(r, Event::BinaryExists { exists_on_disk: true });
    assert_eq!(
        a,
        Action::Finish { result: Ok("dhall-haskell-1.42.2/bin/dhall-lsp-server".to_string()) }
    );
}

#[test]
fn second_resolution_finishes_from_cache_without_fetching() {
    let mut server = DhallLanguageServer::new();
    let first = provision_linux(&mut server);

    // Same machine, no intervening filesystem changes: the second resolution
    // must finish from the cache after one stat, with no release fetch and no
    // download.
    let (r, a) = server.start_resolution(Os::Linux, Arch::X8664);
    assert!(!matches!(a, Action::FetchLatestRelease { .. } | Action::DownloadAsset { .. }));
    let (r, a) = server.step(r, Event::WhichResult { found: None });
    assert_eq!(a, Action::StatCachedFile { path: first.clone() });
    let (_, a) = server.step(r, Event::CacheFileIsFile { is_file: true });
    assert_eq!(a, Action::Finish { result: Ok(first) });
}

#[test]
fn stale_cache_is_not_returned_and_reprovisions() {
    let mut server = DhallLanguageServer::new();
    let first = provision_linux(&mut server);

    // The cached file was deleted externally: the stale path must not be
    // returned; a fresh provisioning pass runs instead.
    let (r, _) = server.start_resolution(Os::Linux, Arch::X8664);
    let (r, a) = server.step(r, Event::WhichResult { found: None });
    assert_eq!(a, Action::StatCachedFile { path: first.clone() });
    let (r, a) = server.step(r, Event::CacheFileIsFile { is_file: false });
    assert_eq!(
        a,
        Action::FetchLatestRelease {
            repo: "dhall-lang/dhall-haskell".to_string(),
            require_assets: true,
            pre_release: false,
        }
    );
    let (r, _) = server.step(r, Event::ReleaseFetched { result: Ok(linux_release()) });
    let (_, a) = server.step(r, Event::BinaryExists { exists_on_disk: true });
    assert_eq!(a, Action::Finish { result: Ok(first) });
}

#[test]
fn asset_selection_picks_the_first_match() {
    let mut server = DhallLanguageServer::new();
    let (r, _) = server.start_resolution(Os::Linux, Arch::X8664);
    let (r, _) = server.step(r, Event::WhichResult { found: None });
    let release = ReleaseInfo {
        version: "1.42.2".to_string(),
        assets: vec![
            Asset {
                name: "dhall-lsp-server-first-x86_64-linux.tar.bz2".to_string(),
                download_url: "https://example.invalid/first".to_string(),
            },
            Asset {
                name: "dhall-lsp-server-second-x86_64-linux.tar.bz2".to_string(),
                download_url: "https://example.invalid/second".to_string(),
            },
        ],
    };
    let (r, _) = server.step(r, Event::ReleaseFetched { result: Ok(release) });
    let (_, a) = server.step(r, Event::BinaryExists { exists_on_disk: false });
    match a {
        Action::DownloadAsset { url, .. } => assert_eq!(url, "https://example.invalid/first"),
        other => panic!("expected a download, got {other:?}"),
    }
}
