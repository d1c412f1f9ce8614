use github_gas::error::LaunchError;
use github_gas::platform::{Arch, Os};
use github_gas::provision::{
    cleanup_removals, find_asset, Action, AssetDescriptor, Event, InstalledBinary, Provisioner,
    ReleaseDescriptor, Removal,
};

fn show(a: &Action) -> String {
    match a {
        Action::CheckFile(p) => format!("check {p}"),
        Action::FetchRelease => "fetch".to_string(),
        Action::CreateDir(d) => format!("mkdir {d}"),
        Action::Download { url, path } => format!("download {url} -> {path}"),
        Action::MakeExecutable(p) => format!("chmod {p}"),
        Action::ListCacheRoot => "list".to_string(),
        Action::Remove(Removal::Dir(n)) => format!("rmdir {n}"),
        Action::Remove(Removal::File(n)) => format!("rm {n}"),
        Action::Finish(Ok(b)) => format!("ok {} {}", b.install_directory, b.executable_path),
        Action::Finish(Err(e)) => format!("err {}", e.message()),
    }
}

fn asset(name: &str, url: &str) -> AssetDescriptor {
    AssetDescriptor { name: name.to_string(), download_url: url.to_string() }
}

fn release(version: &str, assets: Vec<AssetDescriptor>) -> ReleaseDescriptor {
    ReleaseDescriptor { version: version.to_string(), assets }
}

fn v2_release() -> ReleaseDescriptor {
    release(
        "v2",
        vec![
            asset("github-gas-server-darwin-arm64", "https://dl/mac-arm"),
            asset("github-gas-server-linux-amd64", "https://dl/linux-amd"),
        ],
    )
}

/// Feeds the events in turn and collects every action, the first included.
fn drive(start: (Provisioner, Action), events: Vec<Event>) -> (Provisioner, Vec<String>) {
    let (mut p, a) = start;
    let mut out = vec![show(&a)];
    for e in events {
        assert!(p.expects(&e));
        let (p2, a2) = p.step(e);
        out.push(show(&a2));
        p = p2;
    }
    (p, out)
}

fn listing(names: &[&str]) -> Event {
    Event::Listed(Ok(names.iter().map(|n| n.to_string()).collect()))
}

#[test]
fn cold_start_downloads_once() {
    let (p, actions) = drive(
        Provisioner::start(Os::Linux, Arch::X8664, None),
        vec![
            Event::ReleaseFetched(Ok(v2_release())),
            Event::FileChecked(false),
            Event::DirCreated(Ok(())),
            Event::FileChecked(false),
            Event::Downloaded(Ok(())),
            Event::MadeExecutable(Ok(())),
            listing(&["github-gas-server-v2"]),
        ],
    );
    assert_eq!(
        actions,
        vec![
            "fetch",
            "check github-gas-server-v2/github-gas-server",
            "mkdir github-gas-server-v2",
            "check github-gas-server-v2/github-gas-server",
            "download https://dl/linux-amd -> github-gas-server-v2/github-gas-server",
            "chmod github-gas-server-v2/github-gas-server",
            "list",
            "ok github-gas-server-v2 github-gas-server-v2/github-gas-server",
        ]
    );
    assert!(p.warnings.is_empty());
}

#[test]
fn second_call_only_checks_the_file() {
    let previous = InstalledBinary {
        install_directory: "github-gas-server-v2".to_string(),
        executable_path: "github-gas-server-v2/github-gas-server".to_string(),
    };
    let (_, actions) = drive(
        Provisioner::start(Os::Mac, Arch::Aarch64, Some(previous)),
        vec![Event::FileChecked(true)],
    );
    assert_eq!(
        actions,
        vec![
            "check github-gas-server-v2/github-gas-server",
            "ok github-gas-server-v2 github-gas-server-v2/github-gas-server",
        ]
    );
}

#[test]
fn vanished_previous_install_resolves_again() {
    let previous = InstalledBinary {
        install_directory: "github-gas-server-v1".to_string(),
        executable_path: "github-gas-server-v1/github-gas-server".to_string(),
    };
    let (_, actions) = drive(
        Provisioner::start(Os::Mac, Arch::Aarch64, Some(previous)),
        vec![Event::FileChecked(false), Event::ReleaseFetched(Ok(v2_release())), Event::FileChecked(true)],
    );
    assert_eq!(
        actions,
        vec![
            "check github-gas-server-v1/github-gas-server",
            "fetch",
            "check github-gas-server-v2/github-gas-server",
            "ok github-gas-server-v2 github-gas-server-v2/github-gas-server",
        ]
    );
}

#[test]
fn missing_asset_names_the_asset() {
    let (_, actions) = drive(
        Provisioner::start(Os::Windows, Arch::Aarch64, None),
        vec![Event::ReleaseFetched(Ok(v2_release())), Event::FileChecked(false)],
    );
    assert_eq!(actions.len(), 3);
    assert_eq!(actions[2], "err no asset found matching \"github-gas-server-windows-arm64.exe\"");
    assert!(actions[2].contains("github-gas-server-windows-arm64.exe"));
}

#[test]
fn missing_asset_error_variant() {
    let (p, _) = Provisioner::start(Os::Linux, Arch::Other, None);
    let (p, _) = p.step(Event::ReleaseFetched(Ok(v2_release())));
    let (_, a) = p.step(Event::FileChecked(false));
    match a {
        Action::Finish(Err(LaunchError::AssetNotFound(n))) => {
            assert_eq!(n, "github-gas-server-linux-unknown")
        }
        other => panic!("unexpected action {}", show(&other)),
    }
}

#[test]
fn cleanup_removes_old_version_only() {
    let (p, actions) = drive(
        Provisioner::start(Os::Linux, Arch::X8664, None),
        vec![
            Event::ReleaseFetched(Ok(v2_release())),
            Event::FileChecked(false),
            Event::DirCreated(Ok(())),
            Event::FileChecked(false),
            Event::Downloaded(Ok(())),
            Event::MadeExecutable(Ok(())),
            listing(&["github-gas-server-v1", "github-gas-server-v2"]),
            Event::Removed(Ok(())),
        ],
    );
    assert_eq!(actions[7], "rmdir github-gas-server-v1");
    assert_eq!(actions[8], "ok github-gas-server-v2 github-gas-server-v2/github-gas-server");
    assert!(!actions.iter().any(|a| a == "rmdir github-gas-server-v2"));
    assert!(p.warnings.is_empty());
}

#[test]
fn cleanup_isolation_in_either_listing_order() {
    let current = "github-gas-server-v2".to_string();
    for order in [["github-gas-server-v1", "github-gas-server-v2"], ["github-gas-server-v2", "github-gas-server-v1"]] {
        let entries: Vec<String> = order.iter().map(|s| s.to_string()).collect();
        let plan = cleanup_removals(&entries, &current);
        assert_eq!(plan.len(), 1);
        assert!(matches!(&plan[0], Removal::Dir(n) if n == "github-gas-server-v1"));
    }
}

#[test]
fn loose_binary_removed_as_file() {
    let entries = vec!["github-gas-server".to_string(), "github-gas-server-v2".to_string()];
    let plan = cleanup_removals(&entries, &"github-gas-server-v2".to_string());
    assert_eq!(plan.len(), 2);
    assert!(matches!(&plan[0], Removal::Dir(n) if n == "github-gas-server"));
    assert!(matches!(&plan[1], Removal::File(n) if n == "github-gas-server"));
}

#[test]
fn cleanup_failures_are_warnings() {
    let (p, actions) = drive(
        Provisioner::start(Os::Linux, Arch::X8664, None),
        vec![
            Event::ReleaseFetched(Ok(v2_release())),
            Event::FileChecked(false),
            Event::DirCreated(Ok(())),
            Event::FileChecked(false),
            Event::Downloaded(Ok(())),
            Event::MadeExecutable(Ok(())),
            listing(&["a", "github-gas-server-v2", "b"]),
            Event::Removed(Err("busy".to_string())),
            Event::Removed(Ok(())),
        ],
    );
    assert_eq!(actions[7], "rmdir b");
    assert_eq!(actions[8], "rmdir a");
    assert_eq!(actions[9], "ok github-gas-server-v2 github-gas-server-v2/github-gas-server");
    assert_eq!(p.warnings, vec!["busy".to_string()]);
}

#[test]
fn listing_failure_is_a_warning() {
    let (p, actions) = drive(
        Provisioner::start(Os::Linux, Arch::X8664, None),
        vec![
            Event::ReleaseFetched(Ok(v2_release())),
            Event::FileChecked(false),
            Event::DirCreated(Ok(())),
            Event::FileChecked(false),
            Event::Downloaded(Ok(())),
            Event::MadeExecutable(Ok(())),
            Event::Listed(Err("denied".to_string())),
        ],
    );
    assert_eq!(actions[7], "ok github-gas-server-v2 github-gas-server-v2/github-gas-server");
    assert_eq!(p.warnings, vec!["denied".to_string()]);
}

#[test]
fn installed_version_skips_download() {
    let (_, actions) = drive(
        Provisioner::start(Os::Linux, Arch::X8664, None),
        vec![Event::ReleaseFetched(Ok(v2_release())), Event::FileChecked(true)],
    );
    assert_eq!(actions, vec!["fetch", "check github-gas-server-v2/github-gas-server", "ok github-gas-server-v2 github-gas-server-v2/github-gas-server"]);
}

#[test]
fn file_appearing_after_mkdir_skips_download() {
    let (_, actions) = drive(
        Provisioner::start(Os::Linux, Arch::X8664, None),
        vec![
            Event::ReleaseFetched(Ok(v2_release())),
            Event::FileChecked(false),
            Event::DirCreated(Ok(())),
            Event::FileChecked(true),
        ],
    );
    assert_eq!(actions[4], "ok github-gas-server-v2 github-gas-server-v2/github-gas-server");
    assert!(!actions.iter().any(|a| a.starts_with("download")));
}

#[test]
fn each_fatal_error() {
    let (_, a) = drive(
        Provisioner::start(Os::Linux, Arch::X8664, None),
        vec![Event::ReleaseFetched(Err("offline".to_string()))],
    );
    assert_eq!(a[1], "err failed to resolve the latest release: offline");

    let (_, a) = drive(
        Provisioner::start(Os::Linux, Arch::X8664, None),
        vec![Event::ReleaseFetched(Ok(v2_release())), Event::FileChecked(false), Event::DirCreated(Err("denied".to_string()))],
    );
    assert_eq!(a[3], "err failed to create version directory: denied");

    let (_, a) = drive(
        Provisioner::start(Os::Linux, Arch::X8664, None),
        vec![
            Event::ReleaseFetched(Ok(v2_release())),
            Event::FileChecked(false),
            Event::DirCreated(Ok(())),
            Event::FileChecked(false),
            Event::Downloaded(Err("reset".to_string())),
        ],
    );
    assert_eq!(a[5], "err failed to download file: reset");

    let (_, a) = drive(
        Provisioner::start(Os::Linux, Arch::X8664, None),
        vec![
            Event::ReleaseFetched(Ok(v2_release())),
            Event::FileChecked(false),
            Event::DirCreated(Ok(())),
            Event::FileChecked(false),
            Event::Downloaded(Ok(())),
            Event::MadeExecutable(Err("denied".to_string())),
        ],
    );
    assert_eq!(a[6], "err failed to make the file executable: denied");
}

#[test]
fn mismatched_event_is_not_expected() {
    let (p, _) = Provisioner::start(Os::Linux, Arch::X8664, None);
    assert!(!p.expects(&Event::FileChecked(true)));
    assert!(p.expects(&Event::ReleaseFetched(Err("x".to_string()))));
}

#[test]
fn first_matching_asset_wins() {
    let assets = vec![asset("x", "u0"), asset("y", "u1"), asset("y", "u2")];
    assert_eq!(find_asset(&assets, &"y".to_string()), Some("u1".to_string()));
    assert_eq!(find_asset(&assets, &"z".to_string()), None);
    assert_eq!(find_asset(&vec![], &"y".to_string()), None);
}
