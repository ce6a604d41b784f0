//! What holds of every resolution, whatever the host answers.

use crate::model::{
    begin, differs_from, executable_mode, install_root, next, plan_for, repository,
    stale_entries_of, ActionView, EventView, FileKind, InstallationStatus, PhaseView, PlanView,
    ResolveErrorView, ResolverView,
};
use crate::naming::{asset_name_of, binary_path_of, version_dir_of, Architecture, Os};
use crate::release::{has_asset, lemma_select_asset, ReleaseView};
use vstd::prelude::*;

verus! {

/// The requests that the resolver makes, in order, when the host answers
/// them with `events`, starting in state `s`.
pub open spec fn requests(s: ResolverView, events: Seq<EventView>) -> Seq<ActionView>
    decreases events.len(),
{
    if events.len() == 0 {
        Seq::empty()
    } else {
        seq![next(s, events[0]).1] + requests(next(s, events[0]).0, events.drop_first())
    }
}

/// The state that the resolver is in after the host has answered with `events`.
pub open spec fn state_after(s: ResolverView, events: Seq<EventView>) -> ResolverView
    decreases events.len(),
{
    if events.len() == 0 {
        s
    } else {
        state_after(next(s, events[0]).0, events.drop_first())
    }
}

/// Requests that reach out to the network.
pub open spec fn uses_network(action: ActionView) -> bool {
    action is FetchLatestRelease || action is Download
}

/// Requests that change what is on disk.
pub open spec fn changes_files(action: ActionView) -> bool {
    action is Download || action is Rename || action is MakeExecutable
        || action is RemoveDirectory
}

/// Answers to a removal: it was done, or it failed.
pub open spec fn is_removal_answer(event: EventView) -> bool {
    event is Done || event is Failed
}

/// The answers of a host whose `PATH` lacks the server and whose cached
/// binary, if there was one, is gone, up to the release query.
pub open spec fn miss_events(cached: Option<Seq<char>>) -> Seq<EventView> {
    if cached is Some {
        seq![EventView::PathLookup(None), EventView::FileStatus(false), EventView::Done]
    } else {
        seq![EventView::PathLookup(None), EventView::Done]
    }
}

/// What the resolver asks of such a host after the lookup on `PATH`: a check
/// of the cached binary, if there was one, the status, and the release query.
pub open spec fn miss_requests(cached: Option<Seq<char>>) -> Seq<ActionView> {
    let query = seq![
        ActionView::SetInstallationStatus { status: InstallationStatus::CheckingForUpdate },
        ActionView::FetchLatestRelease {
            repository: repository(),
            require_assets: true,
            pre_release: true,
        },
    ];
    match cached {
        Some(path) => seq![ActionView::CheckFile { path }] + query,
        None => query,
    }
}

/// The answers of a host on which a download of `release` succeeds, from the
/// release query up to the permission change.
pub open spec fn install_events(release: ReleaseView, os: Os, arch: Architecture) -> Seq<
    EventView,
> {
    let steps = seq![
        EventView::Release(release),
        EventView::Platform(os, arch),
        EventView::FileStatus(false),
        EventView::Done,
        EventView::Done,
        EventView::Done,
    ];
    if os == Os::Windows {
        steps
    } else {
        steps.push(EventView::Done)
    }
}

/// What the resolver asks of such a host: the platform, whether the binary is
/// there, the status, the download into the version's directory, the rename
/// to the binary's name, the permission bits on every system but Windows,
/// and the listing of the installations.
pub open spec fn install_requests(plan: PlanView) -> Seq<ActionView> {
    let steps = seq![
        ActionView::QueryPlatform,
        ActionView::CheckFile { path: plan.binary_path },
        ActionView::SetInstallationStatus { status: InstallationStatus::Downloading },
        ActionView::Download {
            url: plan.download_url,
            destination: plan.version_dir,
            file_kind: FileKind::Uncompressed,
        },
        ActionView::Rename { from: plan.download_path, to: plan.binary_path },
    ];
    let listing = ActionView::ListDirectory { path: install_root() };
    if plan.os == Os::Windows {
        steps.push(listing)
    } else {
        steps.push(
            ActionView::MakeExecutable { path: plan.binary_path, mode: executable_mode() },
        ).push(listing)
    }
}

/// The removal of each of `paths`, in order.
pub open spec fn removals(paths: Seq<Seq<char>>) -> Seq<ActionView> {
    paths.map_values(|path: Seq<char>| ActionView::RemoveDirectory { path })
}

/// One request is made for each answer.
pub proof fn lemma_requests_len(s: ResolverView, events: Seq<EventView>)
    ensures
        requests(s, events).len() == events.len(),
    decreases events.len(),
{
    if events.len() > 0 {
        lemma_requests_len(next(s, events[0]).0, events.drop_first());
    }
}

/// The requests that follow a first answer are those made from the state
/// that the answer leads to.
pub proof fn lemma_requests_unfold(s: ResolverView, first: EventView, rest: Seq<EventView>)
    ensures
        requests(s, seq![first] + rest) == seq![next(s, first).1] + requests(
            next(s, first).0,
            rest,
        ),
        state_after(s, seq![first] + rest) == state_after(next(s, first).0, rest),
{
    let events = seq![first] + rest;
    assert(events[0] == first);
    assert(events.drop_first() =~= rest);
}

/// Requests and states compose over a split of the answers.
pub proof fn lemma_requests_concat(s: ResolverView, head: Seq<EventView>, tail: Seq<EventView>)
    ensures
        requests(s, head + tail) == requests(s, head) + requests(state_after(s, head), tail),
        state_after(s, head + tail) == state_after(state_after(s, head), tail),
    decreases head.len(),
{
    if head.len() == 0 {
        assert(head + tail =~= tail);
        assert(requests(s, head) + requests(s, tail) =~= requests(s, tail));
    } else {
        let t = next(s, head[0]).0;
        assert((head + tail)[0] == head[0]);
        assert((head + tail).drop_first() =~= head.drop_first() + tail);
        lemma_requests_concat(t, head.drop_first(), tail);
        assert(requests(s, head + tail) =~= requests(s, head) + requests(
            state_after(s, head),
            tail,
        ));
    }
}

/// Once a resolution is over, every further answer is refused, nothing is
/// asked of the host, and the state stays as it is.
pub proof fn lemma_idle_refuses(s: ResolverView, events: Seq<EventView>)
    requires
        s.phase is Idle,
    ensures
        state_after(s, events) == s,
        forall|i: int|
            0 <= i < events.len() ==> #[trigger] requests(s, events)[i] == (ActionView::Finish {
                outcome: Err(ResolveErrorView::OutOfSequence),
            }),
    decreases events.len(),
{
    lemma_requests_len(s, events);
    if events.len() > 0 {
        assert(next(s, events[0]).0 == s);
        lemma_idle_refuses(s, events.drop_first());
        assert forall|i: int| 0 <= i < events.len() implies #[trigger] requests(s, events)[i]
            == (ActionView::Finish { outcome: Err(ResolveErrorView::OutOfSequence) }) by {
            if i > 0 {
                assert(requests(s, events)[i] == requests(s, events.drop_first())[i - 1]);
            }
        }
    }
}

/// A resolution ends exactly when `Finish` is handed out.
pub proof fn lemma_finish_ends_resolution(s: ResolverView, event: EventView)
    ensures
        next(s, event).1 is Finish <==> next(s, event).0.phase is Idle,
{
}

/// The cached path, once set, is never dropped: a resolver that has resolved
/// a binary stays resolved.
pub proof fn lemma_cache_is_never_cleared(s: ResolverView, event: EventView)
    requires
        s.cached is Some,
    ensures
        next(s, event).0.cached is Some,
{
}

/// The cached path changes only when a resolution ends with an installed
/// binary, and then it is the path that the resolution returns.
pub proof fn lemma_cache_changes_on_install_only(s: ResolverView, event: EventView)
    requires
        next(s, event).0.cached != s.cached,
    ensures
        next(s, event).1 matches ActionView::Finish { outcome: Ok(path) } && next(
            s,
            event,
        ).0.cached == Some(path),
{
}

/// Where the worktree's `PATH` holds the server, that path is returned at
/// once: the network is not used, nothing on disk is changed, and the cached
/// path stays as it was.
pub proof fn lemma_path_hit_short_circuits(
    cached: Option<Seq<char>>,
    path: Seq<char>,
    rest: Seq<EventView>,
)
    ensures
        ({
            let events = seq![EventView::PathLookup(Some(path))] + rest;
            let asked = requests(begin(cached).0, events);
            &&& asked[0] == ActionView::Finish { outcome: Ok(path) }
            &&& forall|i: int|
                0 <= i < asked.len() ==> !uses_network(#[trigger] asked[i]) && !changes_files(
                    asked[i],
                )
            &&& state_after(begin(cached).0, events).cached == cached
        }),
{
    let s = begin(cached).0;
    let first = EventView::PathLookup(Some(path));
    let events = seq![first] + rest;
    let asked = requests(s, events);
    lemma_requests_unfold(s, first, rest);
    lemma_idle_refuses(next(s, first).0, rest);
    lemma_requests_len(s, events);
    assert forall|i: int| 0 <= i < asked.len() implies !uses_network(#[trigger] asked[i])
        && !changes_files(asked[i]) by {
        if i > 0 {
            assert(asked[i] == requests(next(s, first).0, rest)[i - 1]);
        }
    }
}

/// Where a cached path is still a regular file, the network is not used and
/// nothing on disk is changed, whatever the lookup on `PATH` gave: the
/// resolution returns the path found on `PATH` or else the cached one.
pub proof fn lemma_cached_hit_short_circuits(
    cached: Seq<char>,
    lookup: Option<Seq<char>>,
    rest: Seq<EventView>,
)
    ensures
        ({
            let events = seq![EventView::PathLookup(lookup), EventView::FileStatus(true)] + rest;
            let asked = requests(begin(Some(cached)).0, events);
            &&& forall|i: int|
                0 <= i < asked.len() ==> !uses_network(#[trigger] asked[i]) && !changes_files(
                    asked[i],
                )
            &&& match lookup {
                Some(path) => asked[0] == ActionView::Finish { outcome: Ok(path) },
                None => asked[0] == ActionView::CheckFile { path: cached } && asked[1]
                    == ActionView::Finish { outcome: Ok(cached) },
            }
            &&& state_after(begin(Some(cached)).0, events).cached == Some(cached)
        }),
{
    let s0 = begin(Some(cached)).0;
    let e0 = EventView::PathLookup(lookup);
    let e1 = EventView::FileStatus(true);
    let events = seq![e0, e1] + rest;
    let asked = requests(s0, events);
    assert(events =~= seq![e0] + (seq![e1] + rest));
    lemma_requests_unfold(s0, e0, seq![e1] + rest);
    let s1 = next(s0, e0).0;
    lemma_requests_unfold(s1, e1, rest);
    let s2 = next(s1, e1).0;
    assert(s2.phase is Idle);
    lemma_idle_refuses(s2, rest);
    lemma_requests_len(s0, events);
    lemma_requests_len(s2, rest);
    assert forall|i: int| 0 <= i < asked.len() implies !uses_network(#[trigger] asked[i])
        && !changes_files(asked[i]) by {
        if i > 1 {
            assert(asked[i] == requests(s2, rest)[i - 2]);
        }
    }
}

/// Where `PATH` lacks the server and the cached binary is gone, the resolver
/// shows that it checks for an update and queries the latest release,
/// pre-releases too, that has assets.
pub proof fn lemma_miss_leads_to_release_query(cached: Option<Seq<char>>)
    ensures
        requests(begin(cached).0, miss_events(cached)) == miss_requests(cached),
        state_after(begin(cached).0, miss_events(cached)) == (ResolverView {
            cached,
            phase: PhaseView::ReleaseQuery,
        }),
{
    let s0 = begin(cached).0;
    let lookup = EventView::PathLookup(None);
    let gone = EventView::FileStatus(false);
    let done = EventView::Done;
    let none = Seq::<EventView>::empty();
    assert(seq![done] =~= seq![done] + none);
    match cached {
        Some(path) => {
            assert(miss_events(cached) =~= seq![lookup] + seq![gone, done]);
            assert(seq![gone, done] =~= seq![gone] + seq![done]);
            lemma_requests_unfold(s0, lookup, seq![gone, done]);
            let s1 = next(s0, lookup).0;
            lemma_requests_unfold(s1, gone, seq![done]);
            let s2 = next(s1, gone).0;
            lemma_requests_unfold(s2, done, none);
            assert(requests(s0, miss_events(cached)) =~= miss_requests(cached));
        },
        None => {
            assert(miss_events(cached) =~= seq![lookup] + seq![done]);
            lemma_requests_unfold(s0, lookup, seq![done]);
            let s1 = next(s0, lookup).0;
            lemma_requests_unfold(s1, done, none);
            assert(requests(s0, miss_events(cached)) =~= miss_requests(cached));
        },
    }
}

/// Where the latest release holds no asset of the host's name, the
/// resolution fails with `AssetMismatch` for that name: nothing is
/// downloaded, nothing on disk is changed, and the cached path stays as it
/// was.
pub proof fn lemma_asset_mismatch_downloads_nothing(
    cached: Option<Seq<char>>,
    release: ReleaseView,
    os: Os,
    arch: Architecture,
    rest: Seq<EventView>,
)
    requires
        !has_asset(release.assets, asset_name_of(release.version, os, arch)),
    ensures
        ({
            let events = miss_events(cached) + seq![
                EventView::Release(release),
                EventView::Platform(os, arch),
            ] + rest;
            let asked = requests(begin(cached).0, events);
            let last = miss_events(cached).len() as int + 1;
            &&& asked[last] == ActionView::Finish {
                outcome: Err(
                    ResolveErrorView::AssetMismatch(asset_name_of(release.version, os, arch)),
                ),
            }
            &&& forall|i: int| 0 <= i < asked.len() ==> !changes_files(#[trigger] asked[i])
            &&& state_after(begin(cached).0, events).cached == cached
        }),
{
    let s0 = begin(cached).0;
    let name = asset_name_of(release.version, os, arch);
    lemma_select_asset(release.assets, name);
    assert(plan_for(release, os, arch) is None);
    let lead = miss_events(cached);
    let e_release = EventView::Release(release);
    let e_platform = EventView::Platform(os, arch);
    let tail = seq![e_release, e_platform] + rest;
    let events = lead + seq![e_release, e_platform] + rest;
    assert(events =~= lead + tail);
    lemma_requests_concat(s0, lead, tail);
    lemma_miss_leads_to_release_query(cached);
    let s1 = state_after(s0, lead);
    assert(tail =~= seq![e_release] + (seq![e_platform] + rest));
    lemma_requests_unfold(s1, e_release, seq![e_platform] + rest);
    let s2 = next(s1, e_release).0;
    lemma_requests_unfold(s2, e_platform, rest);
    let s3 = next(s2, e_platform).0;
    assert(s3.phase is Idle);
    lemma_idle_refuses(s3, rest);
    lemma_requests_len(s3, rest);
    lemma_requests_len(s0, events);
    lemma_requests_len(s0, lead);
    let asked = requests(s0, events);
    let n = lead.len() as int;
    assert(asked =~= miss_requests(cached) + requests(s1, tail));
    assert forall|i: int| 0 <= i < asked.len() implies !changes_files(#[trigger] asked[i]) by {
        if i < n {
            assert(asked[i] == miss_requests(cached)[i]);
        } else if i >= n + 2 {
            assert(asked[i] == requests(s3, rest)[i - n - 2]);
        } else {
            assert(asked[i] == requests(s1, tail)[i - n]);
        }
    }
}

/// Where the binary of the latest release is on disk already, it is returned
/// and its path cached: nothing is downloaded and nothing on disk is changed.
pub proof fn lemma_installed_binary_is_reused(
    cached: Option<Seq<char>>,
    release: ReleaseView,
    os: Os,
    arch: Architecture,
    rest: Seq<EventView>,
)
    requires
        has_asset(release.assets, asset_name_of(release.version, os, arch)),
    ensures
        ({
            let path = binary_path_of(release.version, os);
            let events = miss_events(cached) + seq![
                EventView::Release(release),
                EventView::Platform(os, arch),
                EventView::FileStatus(true),
            ] + rest;
            let asked = requests(begin(cached).0, events);
            let n = miss_events(cached).len() as int;
            &&& asked[n + 1] == ActionView::CheckFile { path }
            &&& asked[n + 2] == ActionView::Finish { outcome: Ok(path) }
            &&& forall|i: int| 0 <= i < asked.len() ==> !changes_files(#[trigger] asked[i])
            &&& state_after(begin(cached).0, events) == (ResolverView {
                cached: Some(path),
                phase: PhaseView::Idle,
            })
        }),
{
    let s0 = begin(cached).0;
    lemma_select_asset(release.assets, asset_name_of(release.version, os, arch));
    let lead = miss_events(cached);
    let e0 = EventView::Release(release);
    let e1 = EventView::Platform(os, arch);
    let e2 = EventView::FileStatus(true);
    let tail = seq![e0, e1, e2] + rest;
    let events = lead + seq![e0, e1, e2] + rest;
    assert(events =~= lead + tail);
    lemma_requests_concat(s0, lead, tail);
    lemma_miss_leads_to_release_query(cached);
    let s1 = state_after(s0, lead);
    assert(tail =~= seq![e0] + (seq![e1, e2] + rest));
    assert(seq![e1, e2] + rest =~= seq![e1] + (seq![e2] + rest));
    lemma_requests_unfold(s1, e0, seq![e1, e2] + rest);
    let s2 = next(s1, e0).0;
    lemma_requests_unfold(s2, e1, seq![e2] + rest);
    let s3 = next(s2, e1).0;
    lemma_requests_unfold(s3, e2, rest);
    let s4 = next(s3, e2).0;
    lemma_idle_refuses(s4, rest);
    lemma_requests_len(s4, rest);
    lemma_requests_len(s0, events);
    lemma_requests_len(s0, lead);
    let asked = requests(s0, events);
    let n = lead.len() as int;
    assert(asked =~= miss_requests(cached) + requests(s1, tail));
    assert forall|i: int| 0 <= i < asked.len() implies !changes_files(#[trigger] asked[i]) by {
        if i < n {
            assert(asked[i] == miss_requests(cached)[i]);
        } else if i >= n + 3 {
            assert(asked[i] == requests(s4, rest)[i - n - 3]);
        } else {
            assert(asked[i] == requests(s1, tail)[i - n]);
        }
    }
}

/// Where the latest release holds an asset of the host's name and the binary
/// is not on disk yet, the resolver downloads that asset and puts the binary
/// in place, step by step as `install_requests` says, and then lists the
/// installations.
pub proof fn lemma_install_leads_to_listing(
    cached: Option<Seq<char>>,
    release: ReleaseView,
    os: Os,
    arch: Architecture,
)
    requires
        has_asset(release.assets, asset_name_of(release.version, os, arch)),
    ensures
        plan_for(release, os, arch) is Some,
        ({
            let s = ResolverView { cached, phase: PhaseView::ReleaseQuery };
            let plan = plan_for(release, os, arch)->Some_0;
            &&& requests(s, install_events(release, os, arch)) == install_requests(plan)
            &&& state_after(s, install_events(release, os, arch)) == (ResolverView {
                cached,
                phase: PhaseView::Listing { plan },
            })
        }),
{
    lemma_select_asset(release.assets, asset_name_of(release.version, os, arch));
    let plan = plan_for(release, os, arch)->Some_0;
    let s0 = ResolverView { cached, phase: PhaseView::ReleaseQuery };
    let e0 = EventView::Release(release);
    let e1 = EventView::Platform(os, arch);
    let e2 = EventView::FileStatus(false);
    let done = EventView::Done;
    let none = Seq::<EventView>::empty();
    let events = install_events(release, os, arch);
    let s1 = next(s0, e0).0;
    let s2 = next(s1, e1).0;
    let s3 = next(s2, e2).0;
    let s4 = next(s3, done).0;
    let s5 = next(s4, done).0;
    let s6 = next(s5, done).0;
    assert(seq![done] =~= seq![done] + none);
    if os == Os::Windows {
        assert(events =~= seq![e0] + seq![e1, e2, done, done, done]);
        assert(seq![e1, e2, done, done, done] =~= seq![e1] + seq![e2, done, done, done]);
        assert(seq![e2, done, done, done] =~= seq![e2] + seq![done, done, done]);
        assert(seq![done, done, done] =~= seq![done] + seq![done, done]);
        assert(seq![done, done] =~= seq![done] + seq![done]);
        lemma_requests_unfold(s0, e0, seq![e1, e2, done, done, done]);
        lemma_requests_unfold(s1, e1, seq![e2, done, done, done]);
        lemma_requests_unfold(s2, e2, seq![done, done, done]);
        lemma_requests_unfold(s3, done, seq![done, done]);
        lemma_requests_unfold(s4, done, seq![done]);
        lemma_requests_unfold(s5, done, none);
        assert(requests(s0, events) =~= install_requests(plan));
    } else {
        assert(events =~= seq![e0] + seq![e1, e2, done, done, done, done]);
        assert(seq![e1, e2, done, done, done, done] =~= seq![e1] + seq![
            e2,
            done,
            done,
            done,
            done,
        ]);
        assert(seq![e2, done, done, done, done] =~= seq![e2] + seq![done, done, done, done]);
        assert(seq![done, done, done, done] =~= seq![done] + seq![done, done, done]);
        assert(seq![done, done, done] =~= seq![done] + seq![done, done]);
        assert(seq![done, done] =~= seq![done] + seq![done]);
        lemma_requests_unfold(s0, e0, seq![e1, e2, done, done, done, done]);
        lemma_requests_unfold(s1, e1, seq![e2, done, done, done, done]);
        lemma_requests_unfold(s2, e2, seq![done, done, done, done]);
        lemma_requests_unfold(s3, done, seq![done, done, done]);
        lemma_requests_unfold(s4, done, seq![done, done]);
        lemma_requests_unfold(s5, done, seq![done]);
        lemma_requests_unfold(s6, done, none);
        assert(requests(s0, events) =~= install_requests(plan));
    }
}

/// Removals are asked for one stale entry after the other, whether or not
/// the removal before succeeded, and then the resolution ends with the
/// installed binary.
proof fn lemma_cleanup_requests(
    cached: Option<Seq<char>>,
    plan: PlanView,
    stale: Seq<Seq<char>>,
    next_entry: nat,
    answers: Seq<EventView>,
)
    requires
        next_entry < stale.len(),
        answers.len() == stale.len() - next_entry,
        forall|i: int| 0 <= i < answers.len() ==> is_removal_answer(#[trigger] answers[i]),
    ensures
        ({
            let s = ResolverView {
                cached,
                phase: PhaseView::Cleanup { plan, stale, next: next_entry },
            };
            let asked = requests(s, answers);
            &&& asked.len() == answers.len()
            &&& forall|i: int|
                0 <= i < asked.len() - 1 ==> #[trigger] asked[i] == (ActionView::RemoveDirectory {
                    path: stale[next_entry + 1 + i],
                })
            &&& asked.last() == ActionView::Finish { outcome: Ok(plan.binary_path) }
            &&& state_after(s, answers) == ResolverView {
                cached: Some(plan.binary_path),
                phase: PhaseView::Idle,
            }
        }),
    decreases stale.len() - next_entry,
{
    let s = ResolverView { cached, phase: PhaseView::Cleanup { plan, stale, next: next_entry } };
    let asked = requests(s, answers);
    let first = answers[0];
    let rest = answers.drop_first();
    let t = next(s, first).0;
    assert(is_removal_answer(first));
    assert(answers =~= seq![first] + rest);
    lemma_requests_unfold(s, first, rest);
    lemma_requests_len(s, answers);
    lemma_requests_len(t, rest);
    if next_entry + 1 < stale.len() {
        assert forall|i: int| 0 <= i < rest.len() implies is_removal_answer(
            #[trigger] rest[i],
        ) by {
            assert(rest[i] == answers[i + 1]);
        }
        lemma_cleanup_requests(cached, plan, stale, next_entry + 1, rest);
        let later = requests(t, rest);
        assert(asked[0] == ActionView::RemoveDirectory { path: stale[next_entry as int + 1] });
        assert forall|i: int| 0 <= i < asked.len() - 1 implies #[trigger] asked[i] == (
        ActionView::RemoveDirectory { path: stale[next_entry + 1 + i] }) by {
            if i > 0 {
                assert(asked[i] == later[i - 1]);
            }
        }
        assert(asked.last() == later.last());
    } else {
        assert(rest.len() == 0);
        assert(asked =~= seq![next(s, first).1]);
    }
}

/// After an installation, every listed entry but the directory of the
/// installed version is asked to be removed, in the order of the listing and
/// whether or not a removal fails; that directory is never asked to be
/// removed; and the resolution then returns the installed binary and caches
/// its path.
pub proof fn lemma_cleanup_removes_other_versions(
    cached: Option<Seq<char>>,
    plan: PlanView,
    entries: Seq<Seq<char>>,
    answers: Seq<EventView>,
)
    requires
        answers.len() == stale_entries_of(entries, plan.version_dir).len(),
        forall|i: int| 0 <= i < answers.len() ==> is_removal_answer(#[trigger] answers[i]),
    ensures
        ({
            let s = ResolverView { cached, phase: PhaseView::Listing { plan } };
            let events = seq![EventView::Listing(entries)] + answers;
            let asked = requests(s, events);
            let stale = stale_entries_of(entries, plan.version_dir);
            &&& asked == removals(stale).push(
                ActionView::Finish { outcome: Ok(plan.binary_path) },
            )
            &&& forall|entry: Seq<char>|
                entries.contains(entry) && entry != plan.version_dir ==> asked.contains(
                    ActionView::RemoveDirectory { path: entry },
                )
            &&& !asked.contains(ActionView::RemoveDirectory { path: plan.version_dir })
            &&& state_after(s, events) == (ResolverView {
                cached: Some(plan.binary_path),
                phase: PhaseView::Idle,
            })
        }),
{
    let s = ResolverView { cached, phase: PhaseView::Listing { plan } };
    let first = EventView::Listing(entries);
    let events = seq![first] + answers;
    let asked = requests(s, events);
    let stale = stale_entries_of(entries, plan.version_dir);
    let keep = differs_from(plan.version_dir);
    lemma_requests_unfold(s, first, answers);
    lemma_requests_len(s, events);
    let t = next(s, first).0;
    if stale.len() > 0 {
        lemma_cleanup_requests(cached, plan, stale, 0, answers);
        let later = requests(t, answers);
        assert forall|i: int| 0 <= i < stale.len() implies #[trigger] asked[i] == (
        ActionView::RemoveDirectory { path: stale[i] }) by {
            if i > 0 {
                assert(asked[i] == later[i - 1]);
            }
        }
        assert(asked.last() == later.last());
    } else {
        assert(answers.len() == 0);
        assert(asked =~= seq![next(s, first).1]);
    }
    assert(asked =~= removals(stale).push(ActionView::Finish { outcome: Ok(plan.binary_path) }));
    assert forall|entry: Seq<char>|
        entries.contains(entry) && entry != plan.version_dir implies asked.contains(
        ActionView::RemoveDirectory { path: entry },
    ) by {
        let i = choose|i: int| 0 <= i < entries.len() && entries[i] == entry;
        assert(keep(entries[i]));
        entries.lemma_filter_contains(keep, i);
        let j = choose|j: int| 0 <= j < stale.len() && stale[j] == entry;
        assert(asked[j] == ActionView::RemoveDirectory { path: entry });
    }
    if asked.contains(ActionView::RemoveDirectory { path: plan.version_dir }) {
        let i = choose|i: int|
            0 <= i < asked.len() && asked[i] == (ActionView::RemoveDirectory {
                path: plan.version_dir,
            });
        assert(i < stale.len());
        assert(asked[i] == ActionView::RemoveDirectory { path: stale[i] });
        entries.lemma_filter_pred(keep, i);
        assert(keep(stale[i]));
    }
}

/// A whole installation, from the lookup on `PATH` to the end: where `PATH`
/// lacks the server, the cached binary is gone, the latest release holds an
/// asset of the host's name and every step succeeds, the resolver asks for
/// the release, the download, the rename, the permission bits and the
/// listing, then for the removal of every other entry, and returns the path
/// of the binary in the directory of the release's version, which it caches.
pub proof fn lemma_installation(
    cached: Option<Seq<char>>,
    release: ReleaseView,
    os: Os,
    arch: Architecture,
    entries: Seq<Seq<char>>,
    answers: Seq<EventView>,
)
    requires
        has_asset(release.assets, asset_name_of(release.version, os, arch)),
        answers.len() == stale_entries_of(entries, version_dir_of(release.version)).len(),
        forall|i: int| 0 <= i < answers.len() ==> is_removal_answer(#[trigger] answers[i]),
    ensures
        plan_for(release, os, arch) is Some,
        ({
            let plan = plan_for(release, os, arch)->Some_0;
            let path = binary_path_of(release.version, os);
            let events = miss_events(cached) + install_events(release, os, arch) + seq![
                EventView::Listing(entries),
            ] + answers;
            &&& requests(begin(cached).0, events) == miss_requests(cached) + install_requests(
                plan,
            ) + removals(stale_entries_of(entries, version_dir_of(release.version))).push(
                ActionView::Finish { outcome: Ok(path) },
            )
            &&& state_after(begin(cached).0, events) == (ResolverView {
                cached: Some(path),
                phase: PhaseView::Idle,
            })
        }),
{
    lemma_install_leads_to_listing(cached, release, os, arch);
    let plan = plan_for(release, os, arch)->Some_0;
    let s0 = begin(cached).0;
    let lead = miss_events(cached);
    let install = install_events(release, os, arch);
    let cleanup = seq![EventView::Listing(entries)] + answers;
    let events = lead + install + seq![EventView::Listing(entries)] + answers;
    assert(events =~= lead + (install + cleanup));
    lemma_miss_leads_to_release_query(cached);
    lemma_requests_concat(s0, lead, install + cleanup);
    let s1 = state_after(s0, lead);
    lemma_requests_concat(s1, install, cleanup);
    lemma_cleanup_removes_other_versions(cached, plan, entries, answers);
    assert(requests(s0, events) =~= miss_requests(cached) + install_requests(plan) + removals(
        stale_entries_of(entries, version_dir_of(release.version)),
    ).push(ActionView::Finish { outcome: Ok(binary_path_of(release.version, os)) }));
}

} // verus!
