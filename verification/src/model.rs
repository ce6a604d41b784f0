//! The resolution of the server binary as a transition system over plain
//! values: which request follows which answer, and when the search ends.

use crate::naming::{
    asset_name_of, binary_path_of, download_path_of, version_dir_of, Architecture, Os,
};
use crate::release::{select_asset, ReleaseView};
use vstd::prelude::*;

verus! {

/// Progress that the host shows while the server is being installed.
#[derive(Clone, Copy, Debug, PartialEq, Eq, Structural)]
pub enum InstallationStatus {
    CheckingForUpdate,
    Downloading,
}

/// How the host treats a downloaded file.
#[derive(Clone, Copy, Debug, PartialEq, Eq, Structural)]
pub enum FileKind {
    Gzip,
    GzipTar,
    Zip,
    Uncompressed,
}

/// Why a resolution ended without a binary.
pub enum ResolveErrorView {
    /// The release query or the download failed; the text says which and why.
    NetworkFailure(Seq<char>),
    /// The release holds no asset of this name.
    AssetMismatch(Seq<char>),
    /// A file could not be renamed or made executable; the text says which and why.
    FilesystemFailure(Seq<char>),
    /// An answer arrived that the pending request does not call for.
    OutOfSequence,
}

/// What the resolver learns from the host.
pub enum EventView {
    /// Where the worktree's `PATH` holds the looked-up name, if anywhere.
    PathLookup(Option<Seq<char>>),
    /// Whether the checked path is a regular file.
    FileStatus(bool),
    /// The request was carried out.
    Done,
    /// The request failed, with the host's message.
    Failed(Seq<char>),
    /// The latest release.
    Release(ReleaseView),
    /// The host's operating system and architecture.
    Platform(Os, Architecture),
    /// The names of the entries of the listed directory.
    Listing(Seq<Seq<char>>),
}

/// What the resolver asks of the host.
pub enum ActionView {
    LookupPath { name: Seq<char> },
    CheckFile { path: Seq<char> },
    SetInstallationStatus { status: InstallationStatus },
    FetchLatestRelease { repository: Seq<char>, require_assets: bool, pre_release: bool },
    QueryPlatform,
    Download { url: Seq<char>, destination: Seq<char>, file_kind: FileKind },
    Rename { from: Seq<char>, to: Seq<char> },
    MakeExecutable { path: Seq<char>, mode: u32 },
    ListDirectory { path: Seq<char> },
    RemoveDirectory { path: Seq<char> },
    /// The resolution is over, with the binary's path or the reason for none.
    Finish { outcome: Result<Seq<char>, ResolveErrorView> },
}

/// What an installation needs to know once the asset is chosen.
pub struct PlanView {
    pub version_dir: Seq<char>,
    pub binary_path: Seq<char>,
    pub download_path: Seq<char>,
    pub download_url: Seq<char>,
    pub os: Os,
}

/// The request whose answer the resolver is waiting for.
pub enum PhaseView {
    Idle,
    PathLookup,
    CachedCheck { path: Seq<char> },
    AnnounceCheck,
    ReleaseQuery,
    PlatformQuery { release: ReleaseView },
    BinaryCheck { plan: PlanView },
    AnnounceDownload { plan: PlanView },
    Download { plan: PlanView },
    Rename { plan: PlanView },
    Permission { plan: PlanView },
    Listing { plan: PlanView },
    Cleanup { plan: PlanView, stale: Seq<Seq<char>>, next: nat },
}

/// What a resolver holds: the cached path and the pending request.
pub struct ResolverView {
    /// Path of the binary that the last installation or disk hit produced.
    pub cached: Option<Seq<char>>,
    pub phase: PhaseView,
}

/// Name under which the server is looked up on `PATH`.
pub open spec fn server_name() -> Seq<char> {
    "odoo_ls_server"@
}

/// Repository whose releases are installed.
pub open spec fn repository() -> Seq<char> {
    "odoo/odoo-ls"@
}

/// Directory in which the versioned installations lie.
pub open spec fn install_root() -> Seq<char> {
    "."@
}

/// Permission bits of an installed binary.
pub open spec fn executable_mode() -> u32 {
    0o755
}

/// Message of a failed download.
pub open spec fn download_failure(reason: Seq<char>) -> Seq<char> {
    "failed to download file: "@ + reason
}

/// Message of a failed rename.
pub open spec fn rename_failure(reason: Seq<char>) -> Seq<char> {
    "failed to rename file: "@ + reason
}

/// Message of a failed permission change.
pub open spec fn permission_failure(reason: Seq<char>) -> Seq<char> {
    "failed to set permissions: "@ + reason
}

/// Tells the entries apart from the directory `keep`.
pub open spec fn differs_from(keep: Seq<char>) -> spec_fn(Seq<char>) -> bool {
    |entry: Seq<char>| entry != keep
}

/// The entries to delete after an installation: all but the directory of the
/// installed version, in the order of the listing.
pub open spec fn stale_entries_of(entries: Seq<Seq<char>>, keep: Seq<char>) -> Seq<Seq<char>> {
    entries.filter(differs_from(keep))
}

/// The installation that `release` offers to a host, or `None` where it holds
/// no asset of the host's name.
pub open spec fn plan_for(release: ReleaseView, os: Os, arch: Architecture) -> Option<PlanView> {
    match select_asset(release.assets, asset_name_of(release.version, os, arch)) {
        Some(asset) => Some(
            PlanView {
                version_dir: version_dir_of(release.version),
                binary_path: binary_path_of(release.version, os),
                download_path: download_path_of(release.version, asset.name),
                download_url: asset.download_url,
                os,
            },
        ),
        None => None,
    }
}

/// The state of a resolver that has resolved nothing yet.
pub open spec fn initial() -> ResolverView {
    ResolverView { cached: None, phase: PhaseView::Idle }
}

/// A resolution starts with a look at the worktree's `PATH`; the cached path
/// is kept.
pub open spec fn begin(cached: Option<Seq<char>>) -> (ResolverView, ActionView) {
    proceed(cached, PhaseView::PathLookup, ActionView::LookupPath { name: server_name() })
}

/// The resolution goes on: `action` is asked, and `phase` waits for its answer.
pub open spec fn proceed(cached: Option<Seq<char>>, phase: PhaseView, action: ActionView) -> (
    ResolverView,
    ActionView,
) {
    (ResolverView { cached, phase }, action)
}

/// The resolution ends with `outcome`.
pub open spec fn finish(
    cached: Option<Seq<char>>,
    outcome: Result<Seq<char>, ResolveErrorView>,
) -> (ResolverView, ActionView) {
    (ResolverView { cached, phase: PhaseView::Idle }, ActionView::Finish { outcome })
}

/// The resolution ends because the answer does not fit the pending request.
pub open spec fn out_of_sequence(cached: Option<Seq<char>>) -> (ResolverView, ActionView) {
    finish(cached, Err(ResolveErrorView::OutOfSequence))
}

/// The binary of `plan` is in place: its path is cached and returned.
pub open spec fn installed(plan: PlanView) -> (ResolverView, ActionView) {
    finish(Some(plan.binary_path), Ok(plan.binary_path))
}

/// Neither `PATH` nor the cache gave a binary: the host is told that an
/// update is looked for, before the release query.
pub open spec fn check_for_update(cached: Option<Seq<char>>) -> (ResolverView, ActionView) {
    proceed(
        cached,
        PhaseView::AnnounceCheck,
        ActionView::SetInstallationStatus { status: InstallationStatus::CheckingForUpdate },
    )
}

/// The binary is in place: the installations are listed for the cleanup.
pub open spec fn list_installations(cached: Option<Seq<char>>, plan: PlanView) -> (
    ResolverView,
    ActionView,
) {
    proceed(cached, PhaseView::Listing { plan }, ActionView::ListDirectory { path: install_root() })
}

/// Asks for the removal of `stale[next]`, or ends the resolution where
/// nothing is left to remove.
pub open spec fn cleanup_from(
    cached: Option<Seq<char>>,
    plan: PlanView,
    stale: Seq<Seq<char>>,
    next: nat,
) -> (ResolverView, ActionView) {
    if next < stale.len() {
        proceed(
            cached,
            PhaseView::Cleanup { plan, stale, next },
            ActionView::RemoveDirectory { path: stale[next as int] },
        )
    } else {
        installed(plan)
    }
}

/// A path found on `PATH` is returned at once. Else a cached path is checked
/// on disk, and without one the release is looked for.
pub open spec fn after_path_lookup(cached: Option<Seq<char>>, event: EventView) -> (
    ResolverView,
    ActionView,
) {
    match event {
        EventView::PathLookup(Some(path)) => finish(cached, Ok(path)),
        EventView::PathLookup(None) => match cached {
            Some(path) => proceed(
                cached,
                PhaseView::CachedCheck { path },
                ActionView::CheckFile { path },
            ),
            None => check_for_update(cached),
        },
        _ => out_of_sequence(cached),
    }
}

/// A cached path that is still a regular file is returned. Else the release
/// is looked for.
pub open spec fn after_cached_check(
    cached: Option<Seq<char>>,
    path: Seq<char>,
    event: EventView,
) -> (ResolverView, ActionView) {
    match event {
        EventView::FileStatus(true) => finish(cached, Ok(path)),
        EventView::FileStatus(false) => check_for_update(cached),
        _ => out_of_sequence(cached),
    }
}

/// Once the status is shown, the latest release that has assets is queried,
/// pre-releases too.
pub open spec fn after_announce_check(cached: Option<Seq<char>>, event: EventView) -> (
    ResolverView,
    ActionView,
) {
    match event {
        EventView::Done => proceed(
            cached,
            PhaseView::ReleaseQuery,
            ActionView::FetchLatestRelease {
                repository: repository(),
                require_assets: true,
                pre_release: true,
            },
        ),
        _ => out_of_sequence(cached),
    }
}

/// With the release in hand the platform is asked for. A failed query ends
/// the resolution with the host's message.
pub open spec fn after_release_query(cached: Option<Seq<char>>, event: EventView) -> (
    ResolverView,
    ActionView,
) {
    match event {
        EventView::Release(release) => proceed(
            cached,
            PhaseView::PlatformQuery { release },
            ActionView::QueryPlatform,
        ),
        EventView::Failed(reason) => finish(cached, Err(ResolveErrorView::NetworkFailure(reason))),
        _ => out_of_sequence(cached),
    }
}

/// The asset named for the host is chosen and the binary looked for on disk.
/// Without such an asset the resolution fails.
pub open spec fn after_platform_query(
    cached: Option<Seq<char>>,
    release: ReleaseView,
    event: EventView,
) -> (ResolverView, ActionView) {
    match event {
        EventView::Platform(os, arch) => match plan_for(release, os, arch) {
            Some(plan) => proceed(
                cached,
                PhaseView::BinaryCheck { plan },
                ActionView::CheckFile { path: plan.binary_path },
            ),
            None => finish(
                cached,
                Err(ResolveErrorView::AssetMismatch(asset_name_of(release.version, os, arch))),
            ),
        },
        _ => out_of_sequence(cached),
    }
}

/// A binary that is on disk already is returned. Else the host is told that
/// a download starts.
pub open spec fn after_binary_check(
    cached: Option<Seq<char>>,
    plan: PlanView,
    event: EventView,
) -> (ResolverView, ActionView) {
    match event {
        EventView::FileStatus(true) => installed(plan),
        EventView::FileStatus(false) => proceed(
            cached,
            PhaseView::AnnounceDownload { plan },
            ActionView::SetInstallationStatus { status: InstallationStatus::Downloading },
        ),
        _ => out_of_sequence(cached),
    }
}

/// Once the status is shown, the asset is downloaded as it is into the
/// directory of its version.
pub open spec fn after_announce_download(
    cached: Option<Seq<char>>,
    plan: PlanView,
    event: EventView,
) -> (ResolverView, ActionView) {
    match event {
        EventView::Done => proceed(
            cached,
            PhaseView::Download { plan },
            ActionView::Download {
                url: plan.download_url,
                destination: plan.version_dir,
                file_kind: FileKind::Uncompressed,
            },
        ),
        _ => out_of_sequence(cached),
    }
}

/// The downloaded file is renamed to the binary's name. A failed download
/// ends the resolution.
pub open spec fn after_download(
    cached: Option<Seq<char>>,
    plan: PlanView,
    event: EventView,
) -> (ResolverView, ActionView) {
    match event {
        EventView::Done => proceed(
            cached,
            PhaseView::Rename { plan },
            ActionView::Rename { from: plan.download_path, to: plan.binary_path },
        ),
        EventView::Failed(reason) => finish(
            cached,
            Err(ResolveErrorView::NetworkFailure(download_failure(reason))),
        ),
        _ => out_of_sequence(cached),
    }
}

/// The binary is made executable, except on Windows, where the listing
/// follows at once. A failed rename ends the resolution.
pub open spec fn after_rename(
    cached: Option<Seq<char>>,
    plan: PlanView,
    event: EventView,
) -> (ResolverView, ActionView) {
    match event {
        EventView::Done => if plan.os == Os::Windows {
            list_installations(cached, plan)
        } else {
            proceed(
                cached,
                PhaseView::Permission { plan },
                ActionView::MakeExecutable { path: plan.binary_path, mode: executable_mode() },
            )
        },
        EventView::Failed(reason) => finish(
            cached,
            Err(ResolveErrorView::FilesystemFailure(rename_failure(reason))),
        ),
        _ => out_of_sequence(cached),
    }
}

/// The installations are listed. A failed permission change ends the
/// resolution.
pub open spec fn after_permission(
    cached: Option<Seq<char>>,
    plan: PlanView,
    event: EventView,
) -> (ResolverView, ActionView) {
    match event {
        EventView::Done => list_installations(cached, plan),
        EventView::Failed(reason) => finish(
            cached,
            Err(ResolveErrorView::FilesystemFailure(permission_failure(reason))),
        ),
        _ => out_of_sequence(cached),
    }
}

/// A listing that fails ends the resolution with the installed binary: the
/// cleanup is best effort.
pub open spec fn after_listing(
    cached: Option<Seq<char>>,
    plan: PlanView,
    event: EventView,
) -> (ResolverView, ActionView) {
    match event {
        EventView::Listing(entries) => cleanup_from(
            cached,
            plan,
            stale_entries_of(entries, plan.version_dir),
            0,
        ),
        EventView::Failed(_) => installed(plan),
        _ => out_of_sequence(cached),
    }
}

/// A removal that fails is passed over.
pub open spec fn after_cleanup(
    cached: Option<Seq<char>>,
    plan: PlanView,
    stale: Seq<Seq<char>>,
    next: nat,
    event: EventView,
) -> (ResolverView, ActionView) {
    match event {
        EventView::Done => cleanup_from(cached, plan, stale, next + 1),
        EventView::Failed(_) => cleanup_from(cached, plan, stale, next + 1),
        _ => out_of_sequence(cached),
    }
}

/// The state and the request that follow `event` in state `s`.
pub open spec fn next(s: ResolverView, event: EventView) -> (ResolverView, ActionView) {
    match s.phase {
        PhaseView::Idle => out_of_sequence(s.cached),
        PhaseView::PathLookup => after_path_lookup(s.cached, event),
        PhaseView::CachedCheck { path } => after_cached_check(s.cached, path, event),
        PhaseView::AnnounceCheck => after_announce_check(s.cached, event),
        PhaseView::ReleaseQuery => after_release_query(s.cached, event),
        PhaseView::PlatformQuery { release } => after_platform_query(s.cached, release, event),
        PhaseView::BinaryCheck { plan } => after_binary_check(s.cached, plan, event),
        PhaseView::AnnounceDownload { plan } => after_announce_download(s.cached, plan, event),
        PhaseView::Download { plan } => after_download(s.cached, plan, event),
        PhaseView::Rename { plan } => after_rename(s.cached, plan, event),
        PhaseView::Permission { plan } => after_permission(s.cached, plan, event),
        PhaseView::Listing { plan } => after_listing(s.cached, plan, event),
        PhaseView::Cleanup { plan, stale, next } => after_cleanup(
            s.cached,
            plan,
            stale,
            next,
            event,
        ),
    }
}

} // verus!
