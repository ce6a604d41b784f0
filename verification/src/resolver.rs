//! The resolver that a host drives: it hands out one request at a time and
//! takes the answer to it, until the server binary is found or the search
//! fails.

use crate::model;
use crate::model::{
    differs_from, stale_entries_of, ActionView, EventView, FileKind, InstallationStatus,
    PhaseView, PlanView, ResolveErrorView, ResolverView,
};
use crate::naming::{asset_name, binary_path, download_path, version_dir, Architecture, Os};
use crate::release::{find_asset, Release};
use vstd::prelude::*;
use vstd::string::StringExecFns;

verus! {

/// Why a resolution ended without a binary.
#[derive(Debug, PartialEq, Eq)]
pub enum ResolveError {
    /// The release query or the download failed; the text says which and why.
    NetworkFailure(String),
    /// The release holds no asset of this name.
    AssetMismatch(String),
    /// A file could not be renamed or made executable; the text says which and why.
    FilesystemFailure(String),
    /// An answer arrived that the pending request does not call for.
    OutOfSequence,
}

impl View for ResolveError {
    type V = ResolveErrorView;

    open spec fn view(&self) -> ResolveErrorView {
        match *self {
            ResolveError::NetworkFailure(reason) => ResolveErrorView::NetworkFailure(reason@),
            ResolveError::AssetMismatch(name) => ResolveErrorView::AssetMismatch(name@),
            ResolveError::FilesystemFailure(reason) => ResolveErrorView::FilesystemFailure(
                reason@,
            ),
            ResolveError::OutOfSequence => ResolveErrorView::OutOfSequence,
        }
    }
}

/// What the resolver learns from the host.
#[derive(Debug, PartialEq, Eq)]
pub enum Event {
    /// Where the worktree's `PATH` holds the looked-up name, if anywhere.
    PathLookup(Option<String>),
    /// Whether the checked path is a regular file.
    FileStatus(bool),
    /// The request was carried out.
    Done,
    /// The request failed, with the host's message.
    Failed(String),
    /// The latest release.
    Release(Release),
    /// The host's operating system and architecture.
    Platform(Os, Architecture),
    /// The names of the entries of the listed directory.
    Listing(Vec<String>),
}

/// The texts that a list of strings holds.
pub open spec fn names(entries: Seq<String>) -> Seq<Seq<char>> {
    entries.map_values(|entry: String| entry@)
}

/// The text of a path, if there is one.
pub open spec fn path_view(path: Option<String>) -> Option<Seq<char>> {
    match path {
        Some(path) => Some(path@),
        None => None,
    }
}

/// The outcome of a resolution over texts.
pub open spec fn outcome_view(outcome: Result<String, ResolveError>) -> Result<
    Seq<char>,
    ResolveErrorView,
> {
    match outcome {
        Ok(path) => Ok(path@),
        Err(error) => Err(error@),
    }
}

impl View for Event {
    type V = EventView;

    open spec fn view(&self) -> EventView {
        match *self {
            Event::PathLookup(found) => EventView::PathLookup(path_view(found)),
            Event::FileStatus(is_file) => EventView::FileStatus(is_file),
            Event::Done => EventView::Done,
            Event::Failed(reason) => EventView::Failed(reason@),
            Event::Release(release) => EventView::Release(release@),
            Event::Platform(os, arch) => EventView::Platform(os, arch),
            Event::Listing(entries) => EventView::Listing(names(entries@)),
        }
    }
}

/// What the resolver asks of the host. Every request but `Finish` is answered
/// by one event.
#[derive(Debug, PartialEq, Eq)]
pub enum Action {
    /// Look the name up on the worktree's `PATH`; answered by `PathLookup`.
    LookupPath { name: String },
    /// Tell whether the path is a regular file; answered by `FileStatus`.
    CheckFile { path: String },
    /// Show the status; answered by `Done`.
    SetInstallationStatus { status: InstallationStatus },
    /// Query the repository's latest release; answered by `Release` or `Failed`.
    FetchLatestRelease { repository: String, require_assets: bool, pre_release: bool },
    /// Tell the host's platform; answered by `Platform`.
    QueryPlatform,
    /// Download the file into the directory; answered by `Done` or `Failed`.
    Download { url: String, destination: String, file_kind: FileKind },
    /// Rename the file; answered by `Done` or `Failed`.
    Rename { from: String, to: String },
    /// Give the file these permission bits; answered by `Done` or `Failed`.
    MakeExecutable { path: String, mode: u32 },
    /// List the directory's entries by name; answered by `Listing` or `Failed`.
    ListDirectory { path: String },
    /// Delete the entry with all it holds; answered by `Done` or `Failed`.
    RemoveDirectory { path: String },
    /// The resolution is over, with the binary's path or the reason for none.
    Finish { outcome: Result<String, ResolveError> },
}

impl View for Action {
    type V = ActionView;

    open spec fn view(&self) -> ActionView {
        match *self {
            Action::LookupPath { name } => ActionView::LookupPath { name: name@ },
            Action::CheckFile { path } => ActionView::CheckFile { path: path@ },
            Action::SetInstallationStatus { status } => ActionView::SetInstallationStatus {
                status,
            },
            Action::FetchLatestRelease {
                repository,
                require_assets,
                pre_release,
            } => ActionView::FetchLatestRelease {
                repository: repository@,
                require_assets,
                pre_release,
            },
            Action::QueryPlatform => ActionView::QueryPlatform,
            Action::Download { url, destination, file_kind } => ActionView::Download {
                url: url@,
                destination: destination@,
                file_kind,
            },
            Action::Rename { from, to } => ActionView::Rename { from: from@, to: to@ },
            Action::MakeExecutable { path, mode } => ActionView::MakeExecutable {
                path: path@,
                mode,
            },
            Action::ListDirectory { path } => ActionView::ListDirectory { path: path@ },
            Action::RemoveDirectory { path } => ActionView::RemoveDirectory { path: path@ },
            Action::Finish { outcome } => ActionView::Finish { outcome: outcome_view(outcome) },
        }
    }
}

/// What an installation needs to know once the asset is chosen.
#[derive(Debug, PartialEq, Eq)]
pub struct Plan {
    pub version_dir: String,
    pub binary_path: String,
    pub download_path: String,
    pub download_url: String,
    pub os: Os,
}

impl View for Plan {
    type V = PlanView;

    open spec fn view(&self) -> PlanView {
        PlanView {
            version_dir: self.version_dir@,
            binary_path: self.binary_path@,
            download_path: self.download_path@,
            download_url: self.download_url@,
            os: self.os,
        }
    }
}

/// The request whose answer the resolver is waiting for.
#[derive(Debug)]
enum Phase {
    Idle,
    PathLookup,
    CachedCheck { path: String },
    AnnounceCheck,
    ReleaseQuery,
    PlatformQuery { release: Release },
    BinaryCheck { plan: Plan },
    AnnounceDownload { plan: Plan },
    Download { plan: Plan },
    Rename { plan: Plan },
    Permission { plan: Plan },
    Listing { plan: Plan },
    Cleanup { plan: Plan, stale: Vec<String>, next: usize },
}

impl View for Phase {
    type V = PhaseView;

    closed spec fn view(&self) -> PhaseView {
        match *self {
            Phase::Idle => PhaseView::Idle,
            Phase::PathLookup => PhaseView::PathLookup,
            Phase::CachedCheck { path } => PhaseView::CachedCheck { path: path@ },
            Phase::AnnounceCheck => PhaseView::AnnounceCheck,
            Phase::ReleaseQuery => PhaseView::ReleaseQuery,
            Phase::PlatformQuery { release } => PhaseView::PlatformQuery { release: release@ },
            Phase::BinaryCheck { plan } => PhaseView::BinaryCheck { plan: plan@ },
            Phase::AnnounceDownload { plan } => PhaseView::AnnounceDownload { plan: plan@ },
            Phase::Download { plan } => PhaseView::Download { plan: plan@ },
            Phase::Rename { plan } => PhaseView::Rename { plan: plan@ },
            Phase::Permission { plan } => PhaseView::Permission { plan: plan@ },
            Phase::Listing { plan } => PhaseView::Listing { plan: plan@ },
            Phase::Cleanup { plan, stale, next } => PhaseView::Cleanup {
                plan: plan@,
                stale: names(stale@),
                next: next as nat,
            },
        }
    }
}

/// Dropping one more entry from a listing: it joins the stale entries unless
/// it is the directory to keep.
proof fn lemma_stale_entries_push(entries: Seq<Seq<char>>, entry: Seq<char>, keep: Seq<char>)
    ensures
        stale_entries_of(entries.push(entry), keep) == if entry != keep {
            stale_entries_of(entries, keep).push(entry)
        } else {
            stale_entries_of(entries, keep)
        },
{
    entries.lemma_filter_push(entry, differs_from(keep));
}

/// The entries to delete after an installation into `keep`: all others, in
/// the order of the listing.
pub fn stale_entries(entries: &Vec<String>, keep: &String) -> (stale: Vec<String>)
    ensures
        names(stale@) == stale_entries_of(names(entries@), keep@),
{
    let mut stale: Vec<String> = Vec::new();
    let mut i: usize = 0;
    proof {
        assert(names(entries@.take(0)).len() == 0);
        assert(names(stale@) =~= stale_entries_of(names(entries@.take(0)), keep@));
    }
    while i < entries.len()
        invariant
            0 <= i <= entries.len(),
            names(stale@) == stale_entries_of(names(entries@.take(i as int)), keep@),
        decreases entries.len() - i,
    {
        let entry = &entries[i];
        proof {
            lemma_stale_entries_push(names(entries@.take(i as int)), entry@, keep@);
            assert(names(entries@.take(i + 1)) =~= names(entries@.take(i as int)).push(entry@));
        }
        if *entry != *keep {
            let ghost before = stale@;
            stale.push(entry.clone());
            proof {
                assert(names(stale@) =~= names(before).push(entry@));
            }
        }
        i += 1;
    }
    proof {
        assert(entries@.take(i as int) =~= entries@);
    }
    stale
}

/// Chooses the asset of `release` for the host and lays out the installation,
/// or returns `None` where the release holds no asset of the host's name.
pub fn plan_installation(release: &Release, os: Os, arch: Architecture) -> (plan: Option<Plan>)
    ensures
        match plan {
            Some(plan) => model::plan_for(release@, os, arch) == Some(plan@),
            None => model::plan_for(release@, os, arch) is None,
        },
{
    let name = asset_name(release.version.as_str(), os, arch);
    match find_asset(&release.assets, &name) {
        Some(asset) => Some(
            Plan {
                version_dir: version_dir(release.version.as_str()),
                binary_path: binary_path(release.version.as_str(), os),
                download_path: download_path(release.version.as_str(), asset.name.as_str()),
                download_url: asset.download_url.clone(),
                os,
            },
        ),
        None => None,
    }
}

/// Finds the server binary for a worktree, one request at a time.
///
/// `begin` starts a resolution and returns its first request. The host
/// carries each request out and hands the answer to `advance`, which returns
/// the next request, until that is `Finish`. The path of an installed binary
/// is kept from one resolution to the next.
#[derive(Debug)]
pub struct Resolver {
    cached_binary_path: Option<String>,
    phase: Phase,
}

impl View for Resolver {
    type V = ResolverView;

    closed spec fn view(&self) -> ResolverView {
        ResolverView { cached: path_view(self.cached_binary_path), phase: self.phase@ }
    }
}

impl Resolver {
    /// A resolver that has resolved nothing yet.
    pub fn new() -> (resolver: Resolver)
        ensures
            resolver@ == model::initial(),
    {
        Resolver { cached_binary_path: None, phase: Phase::Idle }
    }

    /// The path that the last installation or disk hit produced.
    pub fn cached_binary_path(&self) -> (path: Option<String>)
        ensures
            path_view(path) == self@.cached,
    {
        match &self.cached_binary_path {
            Some(path) => Some(path.clone()),
            None => None,
        }
    }

    /// Whether no resolution is under way.
    pub fn is_idle(&self) -> (idle: bool)
        ensures
            idle == (self@.phase is Idle),
    {
        match &self.phase {
            Phase::Idle => true,
            _ => false,
        }
    }

    /// Starts a resolution, dropping one that is under way.
    pub fn begin(&mut self) -> (action: Action)
        ensures
            (final(self)@, action@) == model::begin(old(self)@.cached),
    {
        self.phase = Phase::PathLookup;
        Action::LookupPath { name: String::from_str("odoo_ls_server") }
    }

    /// Takes the answer to the pending request and returns the next request.
    pub fn advance(&mut self, event: Event) -> (action: Action)
        ensures
            (final(self)@, action@) == model::next(old(self)@, event@),
    {
        let mut phase = Phase::Idle;
        core::mem::swap(&mut self.phase, &mut phase);
        match phase {
            Phase::Idle => self.out_of_sequence(),
            Phase::PathLookup => self.after_path_lookup(event),
            Phase::CachedCheck { path } => self.after_cached_check(path, event),
            Phase::AnnounceCheck => self.after_announce_check(event),
            Phase::ReleaseQuery => self.after_release_query(event),
            Phase::PlatformQuery { release } => self.after_platform_query(release, event),
            Phase::BinaryCheck { plan } => self.after_binary_check(plan, event),
            Phase::AnnounceDownload { plan } => self.after_announce_download(plan, event),
            Phase::Download { plan } => self.after_download(plan, event),
            Phase::Rename { plan } => self.after_rename(plan, event),
            Phase::Permission { plan } => self.after_permission(plan, event),
            Phase::Listing { plan } => self.after_listing(plan, event),
            Phase::Cleanup { plan, stale, next } => self.after_cleanup(plan, stale, next, event),
        }
    }

    fn out_of_sequence(&mut self) -> (action: Action)
        requires
            old(self).phase is Idle,
        ensures
            (final(self)@, action@) == model::out_of_sequence(old(self)@.cached),
    {
        Action::Finish { outcome: Err(ResolveError::OutOfSequence) }
    }

    fn installed(&mut self, plan: Plan) -> (action: Action)
        requires
            old(self).phase is Idle,
        ensures
            (final(self)@, action@) == model::installed(plan@),
    {
        self.cached_binary_path = Some(plan.binary_path.clone());
        Action::Finish { outcome: Ok(plan.binary_path) }
    }

    fn check_for_update(&mut self) -> (action: Action)
        ensures
            (final(self)@, action@) == model::check_for_update(old(self)@.cached),
    {
        self.phase = Phase::AnnounceCheck;
        Action::SetInstallationStatus { status: InstallationStatus::CheckingForUpdate }
    }

    fn list_installations(&mut self, plan: Plan) -> (action: Action)
        ensures
            (final(self)@, action@) == model::list_installations(old(self)@.cached, plan@),
    {
        self.phase = Phase::Listing { plan };
        Action::ListDirectory { path: String::from_str(".") }
    }

    fn cleanup_from(&mut self, plan: Plan, stale: Vec<String>, next: usize) -> (action: Action)
        requires
            old(self).phase is Idle,
        ensures
            (final(self)@, action@) == model::cleanup_from(
                old(self)@.cached,
                plan@,
                names(stale@),
                next as nat,
            ),
    {
        if next < stale.len() {
            let path = stale[next].clone();
            self.phase = Phase::Cleanup { plan, stale, next };
            Action::RemoveDirectory { path }
        } else {
            self.installed(plan)
        }
    }

    fn after_path_lookup(&mut self, event: Event) -> (action: Action)
        requires
            old(self).phase is Idle,
        ensures
            (final(self)@, action@) == model::after_path_lookup(old(self)@.cached, event@),
    {
        match event {
            Event::PathLookup(Some(path)) => Action::Finish { outcome: Ok(path) },
            Event::PathLookup(None) => {
                let cached = self.cached_binary_path();
                match cached {
                    Some(path) => {
                        self.phase = Phase::CachedCheck { path: path.clone() };
                        Action::CheckFile { path }
                    },
                    None => self.check_for_update(),
                }
            },
            _ => self.out_of_sequence(),
        }
    }

    fn after_cached_check(&mut self, path: String, event: Event) -> (action: Action)
        requires
            old(self).phase is Idle,
        ensures
            (final(self)@, action@) == model::after_cached_check(
                old(self)@.cached,
                path@,
                event@,
            ),
    {
        match event {
            Event::FileStatus(true) => Action::Finish { outcome: Ok(path) },
            Event::FileStatus(false) => self.check_for_update(),
            _ => self.out_of_sequence(),
        }
    }

    fn after_announce_check(&mut self, event: Event) -> (action: Action)
        requires
            old(self).phase is Idle,
        ensures
            (final(self)@, action@) == model::after_announce_check(old(self)@.cached, event@),
    {
        match event {
            Event::Done => {
                self.phase = Phase::ReleaseQuery;
                Action::FetchLatestRelease {
                    repository: String::from_str("odoo/odoo-ls"),
                    require_assets: true,
                    pre_release: true,
                }
            },
            _ => self.out_of_sequence(),
        }
    }

    fn after_release_query(&mut self, event: Event) -> (action: Action)
        requires
            old(self).phase is Idle,
        ensures
            (final(self)@, action@) == model::after_release_query(old(self)@.cached, event@),
    {
        match event {
            Event::Release(release) => {
                self.phase = Phase::PlatformQuery { release };
                Action::QueryPlatform
            },
            Event::Failed(reason) => Action::Finish {
                outcome: Err(ResolveError::NetworkFailure(reason)),
            },
            _ => self.out_of_sequence(),
        }
    }

    fn after_platform_query(&mut self, release: Release, event: Event) -> (action: Action)
        requires
            old(self).phase is Idle,
        ensures
            (final(self)@, action@) == model::after_platform_query(
                old(self)@.cached,
                release@,
                event@,
            ),
    {
        match event {
            Event::Platform(os, arch) => match plan_installation(&release, os, arch) {
                Some(plan) => {
                    let path = plan.binary_path.clone();
                    self.phase = Phase::BinaryCheck { plan };
                    Action::CheckFile { path }
                },
                None => Action::Finish {
                    outcome: Err(
                        ResolveError::AssetMismatch(
                            asset_name(release.version.as_str(), os, arch),
                        ),
                    ),
                },
            },
            _ => self.out_of_sequence(),
        }
    }

    fn after_binary_check(&mut self, plan: Plan, event: Event) -> (action: Action)
        requires
            old(self).phase is Idle,
        ensures
            (final(self)@, action@) == model::after_binary_check(
                old(self)@.cached,
                plan@,
                event@,
            ),
    {
        match event {
            Event::FileStatus(true) => self.installed(plan),
            Event::FileStatus(false) => {
                self.phase = Phase::AnnounceDownload { plan };
                Action::SetInstallationStatus { status: InstallationStatus::Downloading }
            },
            _ => self.out_of_sequence(),
        }
    }

    fn after_announce_download(&mut self, plan: Plan, event: Event) -> (action: Action)
        requires
            old(self).phase is Idle,
        ensures
            (final(self)@, action@) == model::after_announce_download(
                old(self)@.cached,
                plan@,
                event@,
            ),
    {
        match event {
            Event::Done => {
                let url = plan.download_url.clone();
                let destination = plan.version_dir.clone();
                self.phase = Phase::Download { plan };
                Action::Download { url, destination, file_kind: FileKind::Uncompressed }
            },
            _ => self.out_of_sequence(),
        }
    }

    fn after_download(&mut self, plan: Plan, event: Event) -> (action: Action)
        requires
            old(self).phase is Idle,
        ensures
            (final(self)@, action@) == model::after_download(old(self)@.cached, plan@, event@),
    {
        match event {
            Event::Done => {
                let from = plan.download_path.clone();
                let to = plan.binary_path.clone();
                self.phase = Phase::Rename { plan };
                Action::Rename { from, to }
            },
            Event::Failed(reason) => {
                let mut text = String::from_str("failed to download file: ");
                text.append(reason.as_str());
                Action::Finish { outcome: Err(ResolveError::NetworkFailure(text)) }
            },
            _ => self.out_of_sequence(),
        }
    }

    fn after_rename(&mut self, plan: Plan, event: Event) -> (action: Action)
        requires
            old(self).phase is Idle,
        ensures
            (final(self)@, action@) == model::after_rename(old(self)@.cached, plan@, event@),
    {
        match event {
            Event::Done => match plan.os {
                Os::Windows => self.list_installations(plan),
                _ => {
                    let path = plan.binary_path.clone();
                    self.phase = Phase::Permission { plan };
                    Action::MakeExecutable { path, mode: 0o755 }
                },
            },
            Event::Failed(reason) => {
                let mut text = String::from_str("failed to rename file: ");
                text.append(reason.as_str());
                Action::Finish { outcome: Err(ResolveError::FilesystemFailure(text)) }
            },
            _ => self.out_of_sequence(),
        }
    }

    fn after_permission(&mut self, plan: Plan, event: Event) -> (action: Action)
        requires
            old(self).phase is Idle,
        ensures
            (final(self)@, action@) == model::after_permission(old(self)@.cached, plan@, event@),
    {
        match event {
            Event::Done => self.list_installations(plan),
            Event::Failed(reason) => {
                let mut text = String::from_str("failed to set permissions: ");
                text.append(reason.as_str());
                Action::Finish { outcome: Err(ResolveError::FilesystemFailure(text)) }
            },
            _ => self.out_of_sequence(),
        }
    }

    fn after_listing(&mut self, plan: Plan, event: Event) -> (action: Action)
        requires
            old(self).phase is Idle,
        ensures
            (final(self)@, action@) == model::after_listing(old(self)@.cached, plan@, event@),
    {
        match event {
            Event::Listing(entries) => {
                let stale = stale_entries(&entries, &plan.version_dir);
                self.cleanup_from(plan, stale, 0)
            },
            Event::Failed(_) => self.installed(plan),
            _ => self.out_of_sequence(),
        }
    }

    fn after_cleanup(
        &mut self,
        plan: Plan,
        stale: Vec<String>,
        next: usize,
        event: Event,
    ) -> (action: Action)
        requires
            old(self).phase is Idle,
        ensures
            (final(self)@, action@) == model::after_cleanup(
                old(self)@.cached,
                plan@,
                names(stale@),
                next as nat,
                event@,
            ),
    {
        match event {
            Event::Done => self.remove_next(plan, stale, next),
            Event::Failed(_) => self.remove_next(plan, stale, next),
            _ => self.out_of_sequence(),
        }
    }

    fn remove_next(&mut self, plan: Plan, stale: Vec<String>, next: usize) -> (action: Action)
        requires
            old(self).phase is Idle,
        ensures
            (final(self)@, action@) == model::cleanup_from(
                old(self)@.cached,
                plan@,
                names(stale@),
                next as nat + 1,
            ),
    {
        if next < stale.len() {
            self.cleanup_from(plan, stale, next + 1)
        } else {
            self.installed(plan)
        }
    }
}

} // verus!
