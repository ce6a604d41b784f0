use odoo_ls::model::{FileKind, InstallationStatus};
use odoo_ls::naming::{Architecture, Os};
use odoo_ls::release::{Asset, Release};
use odoo_ls::resolver::{
    plan_installation, stale_entries, Action, Event, Plan, ResolveError, Resolver,
};

const LINUX_ASSET: &str = "odoo_ls_server-1.2.3-x86_64-unknown-linux-gnu";
const LINUX_URL: &str = "https://example.org/download/linux";

fn text(s: &str) -> String {
    s.to_string()
}

fn release(version: &str, assets: &[(&str, &str)]) -> Release {
    Release {
        version: version.to_string(),
        assets: assets
            .iter()
            .map(|(name, url)| Asset { name: name.to_string(), download_url: url.to_string() })
            .collect(),
    }
}

fn linux_release() -> Release {
    release("1.2.3", &[(LINUX_ASSET, LINUX_URL)])
}

fn finish_ok(path: &str) -> Action {
    Action::Finish { outcome: Ok(path.to_string()) }
}

fn finish_err(error: ResolveError) -> Action {
    Action::Finish { outcome: Err(error) }
}

/// Starts a resolution and answers its requests with `events`, in order.
fn drive(resolver: &mut Resolver, events: Vec<Event>) -> Vec<Action> {
    let mut asked = vec![resolver.begin()];
    for event in events {
        asked.push(resolver.advance(event));
    }
    asked
}

/// The answers of a host that downloads and installs the Linux build.
fn linux_install_events(listing: Vec<&str>) -> Vec<Event> {
    vec![
        Event::PathLookup(None),
        Event::Done,
        Event::Release(linux_release()),
        Event::Platform(Os::Linux, Architecture::X8664),
        Event::FileStatus(false),
        Event::Done,
        Event::Done,
        Event::Done,
        Event::Done,
        Event::Listing(listing.into_iter().map(text).collect()),
    ]
}

fn is_network(action: &Action) -> bool {
    matches!(action, Action::FetchLatestRelease { .. } | Action::Download { .. })
}

fn changes_files(action: &Action) -> bool {
    matches!(
        action,
        Action::Download { .. }
            | Action::Rename { .. }
            | Action::MakeExecutable { .. }
            | Action::RemoveDirectory { .. }
    )
}

#[test]
fn new_resolver_is_unresolved_and_idle() {
    let resolver = Resolver::new();
    assert_eq!(resolver.cached_binary_path(), None);
    assert!(resolver.is_idle());
}

#[test]
fn resolution_begins_with_a_path_lookup() {
    let mut resolver = Resolver::new();
    assert_eq!(resolver.begin(), Action::LookupPath { name: text("odoo_ls_server") });
    assert!(!resolver.is_idle());
}

#[test]
fn path_hit_returns_at_once() {
    let mut resolver = Resolver::new();
    let asked = drive(&mut resolver, vec![Event::PathLookup(Some(text("/usr/bin/odoo_ls_server")))]);
    assert_eq!(
        asked,
        vec![
            Action::LookupPath { name: text("odoo_ls_server") },
            finish_ok("/usr/bin/odoo_ls_server"),
        ]
    );
    assert!(asked.iter().all(|a| !is_network(a) && !changes_files(a)));
    assert_eq!(resolver.cached_binary_path(), None);
    assert!(resolver.is_idle());
}

#[test]
fn path_hit_wins_over_a_cached_path() {
    let mut resolver = Resolver::new();
    drive(&mut resolver, linux_install_events(vec![]));
    assert_eq!(resolver.cached_binary_path(), Some(text("odoo-ls-1.2.3/odoo_ls_server")));
    let asked = drive(&mut resolver, vec![Event::PathLookup(Some(text("/opt/odoo_ls_server")))]);
    assert_eq!(asked[1], finish_ok("/opt/odoo_ls_server"));
    assert_eq!(resolver.cached_binary_path(), Some(text("odoo-ls-1.2.3/odoo_ls_server")));
}

#[test]
fn cached_path_that_is_still_a_file_is_returned_without_network() {
    let mut resolver = Resolver::new();
    drive(&mut resolver, linux_install_events(vec![]));
    let asked = drive(&mut resolver, vec![Event::PathLookup(None), Event::FileStatus(true)]);
    assert_eq!(
        asked,
        vec![
            Action::LookupPath { name: text("odoo_ls_server") },
            Action::CheckFile { path: text("odoo-ls-1.2.3/odoo_ls_server") },
            finish_ok("odoo-ls-1.2.3/odoo_ls_server"),
        ]
    );
    assert!(asked.iter().all(|a| !is_network(a) && !changes_files(a)));
    assert!(resolver.is_idle());
}

#[test]
fn cached_path_that_is_gone_leads_to_the_release_query() {
    let mut resolver = Resolver::new();
    drive(&mut resolver, linux_install_events(vec![]));
    let asked = drive(
        &mut resolver,
        vec![Event::PathLookup(None), Event::FileStatus(false), Event::Done],
    );
    assert_eq!(
        asked[2],
        Action::SetInstallationStatus { status: InstallationStatus::CheckingForUpdate }
    );
    assert_eq!(
        asked[3],
        Action::FetchLatestRelease {
            repository: text("odoo/odoo-ls"),
            require_assets: true,
            pre_release: true,
        }
    );
    assert_eq!(resolver.cached_binary_path(), Some(text("odoo-ls-1.2.3/odoo_ls_server")));
}

#[test]
fn linux_release_is_downloaded_and_installed() {
    let mut resolver = Resolver::new();
    let asked = drive(&mut resolver, linux_install_events(vec!["odoo-ls-1.2.3"]));
    assert_eq!(
        asked,
        vec![
            Action::LookupPath { name: text("odoo_ls_server") },
            Action::SetInstallationStatus { status: InstallationStatus::CheckingForUpdate },
            Action::FetchLatestRelease {
                repository: text("odoo/odoo-ls"),
                require_assets: true,
                pre_release: true,
            },
            Action::QueryPlatform,
            Action::CheckFile { path: text("odoo-ls-1.2.3/odoo_ls_server") },
            Action::SetInstallationStatus { status: InstallationStatus::Downloading },
            Action::Download {
                url: text(LINUX_URL),
                destination: text("odoo-ls-1.2.3"),
                file_kind: FileKind::Uncompressed,
            },
            Action::Rename {
                from: text("odoo-ls-1.2.3/odoo_ls_server-1.2.3-x86_64-unknown-linux-gnu"),
                to: text("odoo-ls-1.2.3/odoo_ls_server"),
            },
            Action::MakeExecutable { path: text("odoo-ls-1.2.3/odoo_ls_server"), mode: 0o755 },
            Action::ListDirectory { path: text(".") },
            finish_ok("odoo-ls-1.2.3/odoo_ls_server"),
        ]
    );
    assert_eq!(resolver.cached_binary_path(), Some(text("odoo-ls-1.2.3/odoo_ls_server")));
    assert!(resolver.is_idle());
}

#[test]
fn executable_mode_is_rwxr_xr_x() {
    let mut resolver = Resolver::new();
    let asked = drive(&mut resolver, linux_install_events(vec![]));
    assert_eq!(
        asked[8],
        Action::MakeExecutable { path: text("odoo-ls-1.2.3/odoo_ls_server"), mode: 493 }
    );
}

#[test]
fn release_without_matching_asset_fails_and_downloads_nothing() {
    let mut resolver = Resolver::new();
    let asked = drive(
        &mut resolver,
        vec![
            Event::PathLookup(None),
            Event::Done,
            Event::Release(release(
                "1.2.3",
                &[
                    ("odoo_ls_server-1.2.3-aarch64-apple-darwin", "https://example.org/mac"),
                    ("odoo_ls_server-1.2.2-x86_64-unknown-linux-gnu", "https://example.org/old"),
                ],
            )),
            Event::Platform(Os::Linux, Architecture::X8664),
        ],
    );
    assert_eq!(
        asked[4],
        finish_err(ResolveError::AssetMismatch(text(
            "odoo_ls_server-1.2.3-x86_64-unknown-linux-gnu"
        )))
    );
    assert!(asked.iter().all(|a| !changes_files(a)));
    assert_eq!(resolver.cached_binary_path(), None);
    assert!(resolver.is_idle());
}

#[test]
fn other_version_directories_are_removed() {
    let mut resolver = Resolver::new();
    let mut events = linux_install_events(vec!["odoo-ls-0.9.0", "odoo-ls-1.2.3"]);
    events.push(Event::Done);
    let asked = drive(&mut resolver, events);
    assert_eq!(asked[10], Action::RemoveDirectory { path: text("odoo-ls-0.9.0") });
    assert_eq!(asked[11], finish_ok("odoo-ls-1.2.3/odoo_ls_server"));
    assert!(!asked.contains(&Action::RemoveDirectory { path: text("odoo-ls-1.2.3") }));
    assert_eq!(resolver.cached_binary_path(), Some(text("odoo-ls-1.2.3/odoo_ls_server")));
}

#[test]
fn every_stale_entry_is_removed_in_listing_order() {
    let mut resolver = Resolver::new();
    let mut events =
        linux_install_events(vec!["odoo-ls-1.0.0", "odoo-ls-1.2.3", "notes", "odoo-ls-1.1.0"]);
    events.push(Event::Done);
    events.push(Event::Done);
    events.push(Event::Done);
    let mut asked = drive(&mut resolver, events);
    assert_eq!(
        asked.split_off(10),
        vec![
            Action::RemoveDirectory { path: text("odoo-ls-1.0.0") },
            Action::RemoveDirectory { path: text("notes") },
            Action::RemoveDirectory { path: text("odoo-ls-1.1.0") },
            finish_ok("odoo-ls-1.2.3/odoo_ls_server"),
        ]
    );
}

#[test]
fn failed_removal_is_passed_over() {
    let mut resolver = Resolver::new();
    let mut events = linux_install_events(vec!["odoo-ls-0.8.0", "odoo-ls-0.9.0"]);
    events.push(Event::Failed(text("permission denied")));
    events.push(Event::Failed(text("permission denied")));
    let asked = drive(&mut resolver, events);
    assert_eq!(asked[10], Action::RemoveDirectory { path: text("odoo-ls-0.8.0") });
    assert_eq!(asked[11], Action::RemoveDirectory { path: text("odoo-ls-0.9.0") });
    assert_eq!(asked[12], finish_ok("odoo-ls-1.2.3/odoo_ls_server"));
    assert_eq!(resolver.cached_binary_path(), Some(text("odoo-ls-1.2.3/odoo_ls_server")));
}

#[test]
fn failed_listing_still_returns_the_binary() {
    let mut resolver = Resolver::new();
    let mut events = linux_install_events(vec![]);
    events.pop();
    events.push(Event::Failed(text("cannot read directory")));
    let asked = drive(&mut resolver, events);
    assert_eq!(asked[10], finish_ok("odoo-ls-1.2.3/odoo_ls_server"));
    assert_eq!(resolver.cached_binary_path(), Some(text("odoo-ls-1.2.3/odoo_ls_server")));
}

#[test]
fn binary_already_on_disk_is_not_downloaded_again() {
    let mut resolver = Resolver::new();
    let asked = drive(
        &mut resolver,
        vec![
            Event::PathLookup(None),
            Event::Done,
            Event::Release(linux_release()),
            Event::Platform(Os::Linux, Architecture::X8664),
            Event::FileStatus(true),
        ],
    );
    assert_eq!(asked[4], Action::CheckFile { path: text("odoo-ls-1.2.3/odoo_ls_server") });
    assert_eq!(asked[5], finish_ok("odoo-ls-1.2.3/odoo_ls_server"));
    assert!(asked.iter().all(|a| !changes_files(a)));
    assert_eq!(resolver.cached_binary_path(), Some(text("odoo-ls-1.2.3/odoo_ls_server")));
}

#[test]
fn windows_install_skips_the_permission_step() {
    let mut resolver = Resolver::new();
    let asked = drive(
        &mut resolver,
        vec![
            Event::PathLookup(None),
            Event::Done,
            Event::Release(release(
                "2.0.0",
                &[("odoo_ls_server-2.0.0-x86_64-pc-windows-msvc.exe", "https://example.org/win")],
            )),
            Event::Platform(Os::Windows, Architecture::X8664),
            Event::FileStatus(false),
            Event::Done,
            Event::Done,
            Event::Done,
            Event::Listing(vec![]),
        ],
    );
    assert_eq!(
        asked[7],
        Action::Rename {
            from: text("odoo-ls-2.0.0/odoo_ls_server-2.0.0-x86_64-pc-windows-msvc.exe"),
            to: text("odoo-ls-2.0.0/odoo_ls_server.exe"),
        }
    );
    assert_eq!(asked[8], Action::ListDirectory { path: text(".") });
    assert_eq!(asked[9], finish_ok("odoo-ls-2.0.0/odoo_ls_server.exe"));
    assert!(asked.iter().all(|a| !matches!(a, Action::MakeExecutable { .. })));
}

#[test]
fn mac_aarch64_install_picks_its_asset() {
    let mut resolver = Resolver::new();
    let asked = drive(
        &mut resolver,
        vec![
            Event::PathLookup(None),
            Event::Done,
            Event::Release(release(
                "1.2.3",
                &[
                    (LINUX_ASSET, LINUX_URL),
                    ("odoo_ls_server-1.2.3-aarch64-apple-darwin", "https://example.org/mac-arm"),
                    ("odoo_ls_server-1.2.3-x86_64-apple-darwin", "https://example.org/mac-intel"),
                ],
            )),
            Event::Platform(Os::Mac, Architecture::Aarch64),
            Event::FileStatus(false),
            Event::Done,
        ],
    );
    assert_eq!(
        asked[6],
        Action::Download {
            url: text("https://example.org/mac-arm"),
            destination: text("odoo-ls-1.2.3"),
            file_kind: FileKind::Uncompressed,
        }
    );
}

#[test]
fn failed_release_query_is_a_network_failure() {
    let mut resolver = Resolver::new();
    let asked = drive(
        &mut resolver,
        vec![Event::PathLookup(None), Event::Done, Event::Failed(text("rate limited"))],
    );
    assert_eq!(asked[3], finish_err(ResolveError::NetworkFailure(text("rate limited"))));
    assert_eq!(resolver.cached_binary_path(), None);
    assert!(resolver.is_idle());
}

#[test]
fn failed_download_is_a_network_failure() {
    let mut resolver = Resolver::new();
    let mut events = linux_install_events(vec![]);
    events.truncate(6);
    events.push(Event::Failed(text("connection reset")));
    let asked = drive(&mut resolver, events);
    assert_eq!(
        asked[7],
        finish_err(ResolveError::NetworkFailure(text(
            "failed to download file: connection reset"
        )))
    );
    assert_eq!(resolver.cached_binary_path(), None);
}

#[test]
fn failed_rename_is_a_filesystem_failure() {
    let mut resolver = Resolver::new();
    let mut events = linux_install_events(vec![]);
    events.truncate(7);
    events.push(Event::Failed(text("no such file")));
    let asked = drive(&mut resolver, events);
    assert_eq!(
        asked[8],
        finish_err(ResolveError::FilesystemFailure(text("failed to rename file: no such file")))
    );
    assert_eq!(resolver.cached_binary_path(), None);
}

#[test]
fn failed_permission_change_is_a_filesystem_failure() {
    let mut resolver = Resolver::new();
    let mut events = linux_install_events(vec![]);
    events.truncate(8);
    events.push(Event::Failed(text("read-only file system")));
    let asked = drive(&mut resolver, events);
    assert_eq!(
        asked[9],
        finish_err(ResolveError::FilesystemFailure(text(
            "failed to set permissions: read-only file system"
        )))
    );
    assert_eq!(resolver.cached_binary_path(), None);
}

#[test]
fn answer_out_of_sequence_ends_the_resolution() {
    let mut resolver = Resolver::new();
    let asked = drive(&mut resolver, vec![Event::FileStatus(true)]);
    assert_eq!(asked[1], finish_err(ResolveError::OutOfSequence));
    assert!(resolver.is_idle());
}

#[test]
fn answer_without_a_resolution_is_refused() {
    let mut resolver = Resolver::new();
    assert_eq!(resolver.advance(Event::Done), finish_err(ResolveError::OutOfSequence));
    assert_eq!(
        resolver.advance(Event::PathLookup(Some(text("/usr/bin/odoo_ls_server")))),
        finish_err(ResolveError::OutOfSequence)
    );
    assert!(resolver.is_idle());
}

#[test]
fn failed_status_signal_is_out_of_sequence() {
    let mut resolver = Resolver::new();
    let asked =
        drive(&mut resolver, vec![Event::PathLookup(None), Event::Failed(text("no display"))]);
    assert_eq!(asked[2], finish_err(ResolveError::OutOfSequence));
}

#[test]
fn begin_drops_a_resolution_under_way() {
    let mut resolver = Resolver::new();
    drive(&mut resolver, vec![Event::PathLookup(None), Event::Done]);
    assert!(!resolver.is_idle());
    let asked = drive(&mut resolver, vec![Event::PathLookup(Some(text("/bin/odoo_ls_server")))]);
    assert_eq!(asked[0], Action::LookupPath { name: text("odoo_ls_server") });
    assert_eq!(asked[1], finish_ok("/bin/odoo_ls_server"));
}

#[test]
fn newer_release_replaces_the_cached_path() {
    let mut resolver = Resolver::new();
    drive(&mut resolver, linux_install_events(vec![]));
    let asked = drive(
        &mut resolver,
        vec![
            Event::PathLookup(None),
            Event::FileStatus(false),
            Event::Done,
            Event::Release(release(
                "1.3.0",
                &[("odoo_ls_server-1.3.0-x86_64-unknown-linux-gnu", "https://example.org/new")],
            )),
            Event::Platform(Os::Linux, Architecture::X8664),
            Event::FileStatus(true),
        ],
    );
    assert_eq!(asked[6], finish_ok("odoo-ls-1.3.0/odoo_ls_server"));
    assert_eq!(resolver.cached_binary_path(), Some(text("odoo-ls-1.3.0/odoo_ls_server")));
}

#[test]
fn stale_entries_are_all_but_the_kept_directory() {
    let entries = vec![text("odoo-ls-0.9.0"), text("odoo-ls-1.2.3"), text("odoo-ls-1.0.0")];
    assert_eq!(
        stale_entries(&entries, &text("odoo-ls-1.2.3")),
        vec![text("odoo-ls-0.9.0"), text("odoo-ls-1.0.0")]
    );
}

#[test]
fn stale_entries_of_an_empty_listing() {
    let entries: Vec<String> = Vec::new();
    assert_eq!(stale_entries(&entries, &text("odoo-ls-1.2.3")), Vec::<String>::new());
}

#[test]
fn stale_entries_drops_every_copy_of_the_kept_name() {
    let entries = vec![text("odoo-ls-1.2.3"), text("a"), text("odoo-ls-1.2.3")];
    assert_eq!(stale_entries(&entries, &text("odoo-ls-1.2.3")), vec![text("a")]);
}

#[test]
fn plan_installation_lays_out_the_paths() {
    let plan = plan_installation(&linux_release(), Os::Linux, Architecture::X8664);
    assert_eq!(
        plan,
        Some(Plan {
            version_dir: text("odoo-ls-1.2.3"),
            binary_path: text("odoo-ls-1.2.3/odoo_ls_server"),
            download_path: text("odoo-ls-1.2.3/odoo_ls_server-1.2.3-x86_64-unknown-linux-gnu"),
            download_url: text(LINUX_URL),
            os: Os::Linux,
        })
    );
}

#[test]
fn plan_installation_without_asset_for_the_host() {
    assert_eq!(plan_installation(&linux_release(), Os::Mac, Architecture::X8664), None);
    assert_eq!(plan_installation(&linux_release(), Os::Linux, Architecture::Aarch64), None);
}
