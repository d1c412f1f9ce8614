//! Laws of provisioning and of the settings translation, stated over the
//! transition function and proved.
use vstd::prelude::*;
use crate::error::{message_spec, ErrorModel};
use crate::platform::{asset_name_spec, Arch, Os, BINARY_NAME};
use crate::provision::{
    binary_path_spec, cleanup_plan, entry_removals, expects, find_asset_spec, finish_err,
    finish_ok, next_spec, start_spec, version_dir_spec, ActionModel, AssetModel,
    EventModel, InstalledModel, ProvisionerModel, ReleaseModel, RemovalModel, StageModel,
};
use crate::settings::{env_spec, join_spec, SettingsModel, REPOSITORIES_VAR};

verus! {

/// The actions that a run of events brings about from a state, up to the first
/// event that does not answer the pending action.
pub open spec fn run(s: ProvisionerModel, events: Seq<EventModel>) -> Seq<ActionModel>
    decreases events.len(),
{
    if events.len() == 0 || !expects(s, events[0]) {
        seq![]
    } else {
        seq![next_spec(s, events[0]).1] + run(next_spec(s, events[0]).0, events.drop_first())
    }
}

/// All actions of one attempt: the first one, then those the events bring about.
pub open spec fn attempt(
    os: Os,
    arch: Arch,
    previous: Option<InstalledModel>,
    events: Seq<EventModel>,
) -> Seq<ActionModel> {
    seq![start_spec(os, arch, previous).1] + run(start_spec(os, arch, previous).0, events)
}

pub open spec fn count_downloads(a: Seq<ActionModel>) -> nat
    decreases a.len(),
{
    if a.len() == 0 {
        0
    } else {
        (if a[0] is Download { 1nat } else { 0nat }) + count_downloads(a.drop_first())
    }
}

pub open spec fn count_fetches(a: Seq<ActionModel>) -> nat
    decreases a.len(),
{
    if a.len() == 0 {
        0
    } else {
        (if a[0] is FetchRelease { 1nat } else { 0nat }) + count_fetches(a.drop_first())
    }
}

/// How many downloads may still be asked for from a stage.
pub open spec fn downloads_left(st: StageModel) -> nat {
    match st {
        StageModel::CheckingPrevious { .. } => 1,
        StageModel::Resolving => 1,
        StageModel::CheckingInstalled { .. } => 1,
        StageModel::CreatingDir { .. } => 1,
        StageModel::Rechecking { .. } => 1,
        _ => 0,
    }
}

/// How many release queries may still be asked for from a stage.
pub open spec fn fetches_left(st: StageModel) -> nat {
    match st {
        StageModel::CheckingPrevious { .. } => 1,
        _ => 0,
    }
}

proof fn lemma_step_budgets(s: ProvisionerModel, e: EventModel)
    requires
        expects(s, e),
    ensures
        downloads_left(next_spec(s, e).0.stage) <= downloads_left(s.stage),
        next_spec(s, e).1 is Download ==> downloads_left(s.stage) == 1 && downloads_left(
            next_spec(s, e).0.stage,
        ) == 0,
        fetches_left(next_spec(s, e).0.stage) <= fetches_left(s.stage),
        next_spec(s, e).1 is FetchRelease ==> fetches_left(s.stage) == 1 && fetches_left(
            next_spec(s, e).0.stage,
        ) == 0,
{
}

proof fn lemma_run_budgets(s: ProvisionerModel, events: Seq<EventModel>)
    ensures
        count_downloads(run(s, events)) <= downloads_left(s.stage),
        count_fetches(run(s, events)) <= fetches_left(s.stage),
    decreases events.len(),
{
    if events.len() > 0 && expects(s, events[0]) {
        let (s2, a) = next_spec(s, events[0]);
        lemma_step_budgets(s, events[0]);
        lemma_run_budgets(s2, events.drop_first());
        let r = run(s, events);
        assert(r[0] == a);
        assert(r.drop_first() =~= run(s2, events.drop_first()));
    }
}

/// Whatever the outside operations report, one attempt downloads at most once
/// and queries the release feed at most once.
pub proof fn lemma_one_download_one_query(
    os: Os,
    arch: Arch,
    previous: Option<InstalledModel>,
    events: Seq<EventModel>,
)
    ensures
        count_downloads(attempt(os, arch, previous, events)) <= 1,
        count_fetches(attempt(os, arch, previous, events)) <= 1,
{
    let (s, a) = start_spec(os, arch, previous);
    lemma_run_budgets(s, events);
    let all = attempt(os, arch, previous, events);
    assert(all[0] == a);
    assert(all.drop_first() =~= run(s, events));
}

/// Given the result of an earlier attempt whose executable is still there, an
/// attempt checks that one file and returns the same install, with no query and
/// no download.
pub proof fn lemma_previous_install_reused(os: Os, arch: Arch, b: InstalledModel)
    ensures
        start_spec(os, arch, Some(b)).1 == ActionModel::CheckFile(b.path),
        attempt(os, arch, Some(b), seq![EventModel::FileChecked(true)]) == seq![
            ActionModel::CheckFile(b.path),
            ActionModel::Finish(Ok(b)),
        ],
{
    let s = start_spec(os, arch, Some(b)).0;
    let evs = seq![EventModel::FileChecked(true)];
    assert(run(next_spec(s, evs[0]).0, evs.drop_first()) == Seq::<ActionModel>::empty());
    assert(attempt(os, arch, Some(b), evs) =~= seq![
        ActionModel::CheckFile(b.path),
        ActionModel::Finish(Ok(b)),
    ]);
}

proof fn lemma_find_none(assets: Seq<AssetModel>, name: Seq<char>)
    requires
        forall|i: int| 0 <= i < assets.len() ==> assets[i].name != name,
    ensures
        find_asset_spec(assets, name) is None,
    decreases assets.len(),
{
    if assets.len() > 0 {
        let rest = assets.subrange(1, assets.len() as int);
        assert forall|i: int| 0 <= i < rest.len() implies rest[i].name != name by {
            assert(rest[i] == assets[i + 1]);
        }
        lemma_find_none(rest, name);
    }
}

/// When no asset of the release bears the platform's asset name, the attempt
/// fails with that name, and the error's message holds the name verbatim.
pub proof fn lemma_missing_asset(s: ProvisionerModel, release: ReleaseModel)
    requires
        s.stage == (StageModel::CheckingInstalled { release }),
        forall|i: int|
            0 <= i < release.assets.len() ==> release.assets[i].name != asset_name_spec(
                s.os,
                s.arch,
            ),
    ensures
        next_spec(s, EventModel::FileChecked(false)).1 == finish_err(
            ErrorModel::AssetNotFound(asset_name_spec(s.os, s.arch)),
        ),
        ({
            let name = asset_name_spec(s.os, s.arch);
            let m = message_spec(ErrorModel::AssetNotFound(name));
            exists|k: int| 0 <= k && k + name.len() <= m.len() && #[trigger] m.subrange(k, k + name.len()) == name
        }),
{
    let name = asset_name_spec(s.os, s.arch);
    lemma_find_none(release.assets, name);
    let m = message_spec(ErrorModel::AssetNotFound(name));
    let k = "no asset found matching \""@.len() as int;
    assert(m.subrange(k, k + name.len()) =~= name);
}

/// Settings that give only the repositories give exactly one variable, the
/// repositories joined with commas.
pub proof fn lemma_only_repositories(repos: Seq<Seq<char>>)
    ensures
        env_spec(
            SettingsModel {
                repositories: Some(repos),
                query_extra: None,
                from_date: None,
                author: None,
                auth_type: None,
                to_date: None,
            },
        ) == seq![(REPOSITORIES_VAR@, join_spec(repos, ","@))],
{
    let s = SettingsModel {
        repositories: Some(repos),
        query_extra: None,
        from_date: None,
        author: None,
        auth_type: None,
        to_date: None,
    };
    assert(env_spec(s) =~= seq![(REPOSITORIES_VAR@, join_spec(repos, ","@))]);
}

pub open spec fn removal_name(r: RemovalModel) -> Seq<char> {
    match r {
        RemovalModel::Dir(n) => n,
        RemovalModel::File(n) => n,
    }
}

proof fn lemma_binary_name_is_no_version_dir(version: Seq<char>)
    ensures
        BINARY_NAME@ != version_dir_spec(version),
{
    reveal_strlit("-");
    assert(version_dir_spec(version).len() > BINARY_NAME@.len());
}

/// Cleanup never touches the current version's install directory, and removes
/// every other entry of the cache root as a directory, in whatever order the
/// removals are carried out.
pub proof fn lemma_cleanup_isolation(entries: Seq<Seq<char>>, version: Seq<char>)
    ensures
        forall|i: int|
            0 <= i < cleanup_plan(entries, version_dir_spec(version)).len() ==> removal_name(
                #[trigger] cleanup_plan(entries, version_dir_spec(version))[i],
            ) != version_dir_spec(version),
        forall|j: int|
            0 <= j < entries.len() && entries[j] != version_dir_spec(version) ==> cleanup_plan(
                entries,
                version_dir_spec(version),
            ).contains(RemovalModel::Dir(#[trigger] entries[j])),
    decreases entries.len(),
{
    let current = version_dir_spec(version);
    lemma_binary_name_is_no_version_dir(version);
    if entries.len() > 0 {
        let init = entries.drop_last();
        lemma_cleanup_isolation(init, version);
        let p0 = cleanup_plan(init, current);
        let tail = entry_removals(entries.last(), current);
        let p = cleanup_plan(entries, current);
        assert(p == p0 + tail);
        assert forall|i: int| 0 <= i < p.len() implies removal_name(#[trigger] p[i]) != current by {
            if i >= p0.len() {
                assert(p[i] == tail[i - p0.len()]);
            }
        }
        assert forall|j: int| 0 <= j < entries.len() && entries[j] != current implies p.contains(
            RemovalModel::Dir(#[trigger] entries[j]),
        ) by {
            if j < init.len() {
                assert(init[j] == entries[j]);
                let k = choose|k: int| 0 <= k < p0.len() && p0[k] == RemovalModel::Dir(init[j]);
                assert(p[k] == p0[k]);
            } else {
                assert(tail[0] == RemovalModel::Dir(entries[j]));
                assert(p[p0.len() as int] == tail[0]);
            }
        }
    }
}

/// From an empty cache root, with every operation succeeding, an attempt
/// queries once, creates the install directory, downloads the asset to the
/// executable's path once, makes it executable once, and returns that path.
pub proof fn lemma_cold_start(os: Os, arch: Arch, release: ReleaseModel, url: Seq<char>)
    requires
        find_asset_spec(release.assets, asset_name_spec(os, arch)) == Some(url),
    ensures
        ({
            let v = release.version;
            let p = binary_path_spec(v);
            attempt(
                os,
                arch,
                None,
                seq![
                    EventModel::ReleaseFetched(Ok(release)),
                    EventModel::FileChecked(false),
                    EventModel::DirCreated(Ok(())),
                    EventModel::FileChecked(false),
                    EventModel::Downloaded(Ok(())),
                    EventModel::MadeExecutable(Ok(())),
                    EventModel::Listed(Ok(seq![version_dir_spec(v)])),
                ],
            ) == seq![
                ActionModel::FetchRelease,
                ActionModel::CheckFile(p),
                ActionModel::CreateDir(version_dir_spec(v)),
                ActionModel::CheckFile(p),
                ActionModel::Download { url, path: p },
                ActionModel::MakeExecutable(p),
                ActionModel::ListCacheRoot,
                finish_ok(v),
            ]
        }),
{
    let v = release.version;
    let p = binary_path_spec(v);
    let d = version_dir_spec(v);
    lemma_binary_name_is_no_version_dir(v);
    assert(cleanup_plan(seq![d], d) =~= seq![]) by {
        assert(seq![d].drop_last() =~= Seq::<Seq<char>>::empty());
        assert(cleanup_plan(Seq::<Seq<char>>::empty(), d) == Seq::<RemovalModel>::empty());
        assert(seq![d].last() == d);
        assert(entry_removals(d, d) =~= seq![]);
    }
    let evs = seq![
        EventModel::ReleaseFetched(Ok(release)),
        EventModel::FileChecked(false),
        EventModel::DirCreated(Ok(())),
        EventModel::FileChecked(false),
        EventModel::Downloaded(Ok(())),
        EventModel::MadeExecutable(Ok(())),
        EventModel::Listed(Ok(seq![d])),
    ];
    let s0 = start_spec(os, arch, None).0;
    let s1 = next_spec(s0, evs[0]).0;
    let s2 = next_spec(s1, evs[1]).0;
    let s3 = next_spec(s2, evs[2]).0;
    let s4 = next_spec(s3, evs[3]).0;
    let s5 = next_spec(s4, evs[4]).0;
    let s6 = next_spec(s5, evs[5]).0;
    let s7 = next_spec(s6, evs[6]).0;
    let e7 = evs.drop_first().drop_first().drop_first().drop_first().drop_first().drop_first().drop_first();
    assert(e7 =~= Seq::<EventModel>::empty());
    assert(run(s7, e7) == Seq::<ActionModel>::empty());
    let e6 = evs.drop_first().drop_first().drop_first().drop_first().drop_first().drop_first();
    assert(e6 =~= seq![evs[6]]);
    assert(run(s6, e6) =~= seq![finish_ok(v)]);
    let e5 = evs.drop_first().drop_first().drop_first().drop_first().drop_first();
    assert(e5 =~= seq![evs[5], evs[6]]);
    assert(run(s5, e5) =~= seq![ActionModel::ListCacheRoot, finish_ok(v)]);
    let e4 = evs.drop_first().drop_first().drop_first().drop_first();
    assert(e4 =~= seq![evs[4], evs[5], evs[6]]);
    assert(run(s4, e4) =~= seq![ActionModel::MakeExecutable(p), ActionModel::ListCacheRoot, finish_ok(v)]);
    let e3 = evs.drop_first().drop_first().drop_first();
    assert(e3 =~= seq![evs[3], evs[4], evs[5], evs[6]]);
    assert(run(s3, e3) =~= seq![
        ActionModel::Download { url, path: p },
        ActionModel::MakeExecutable(p),
        ActionModel::ListCacheRoot,
        finish_ok(v),
    ]);
    let e2 = evs.drop_first().drop_first();
    assert(e2 =~= seq![evs[2], evs[3], evs[4], evs[5], evs[6]]);
    assert(run(s2, e2) =~= seq![
        ActionModel::CheckFile(p),
        ActionModel::Download { url, path: p },
        ActionModel::MakeExecutable(p),
        ActionModel::ListCacheRoot,
        finish_ok(v),
    ]);
    let e1 = evs.drop_first();
    assert(e1 =~= seq![evs[1], evs[2], evs[3], evs[4], evs[5], evs[6]]);
    assert(run(s1, e1) =~= seq![
        ActionModel::CreateDir(d),
        ActionModel::CheckFile(p),
        ActionModel::Download { url, path: p },
        ActionModel::MakeExecutable(p),
        ActionModel::ListCacheRoot,
        finish_ok(v),
    ]);
    assert(run(s0, evs) =~= seq![
        ActionModel::CheckFile(p),
        ActionModel::CreateDir(d),
        ActionModel::CheckFile(p),
        ActionModel::Download { url, path: p },
        ActionModel::MakeExecutable(p),
        ActionModel::ListCacheRoot,
        finish_ok(v),
    ]);
    assert(attempt(os, arch, None, evs) =~= seq![
        ActionModel::FetchRelease,
        ActionModel::CheckFile(p),
        ActionModel::CreateDir(d),
        ActionModel::CheckFile(p),
        ActionModel::Download { url, path: p },
        ActionModel::MakeExecutable(p),
        ActionModel::ListCacheRoot,
        finish_ok(v),
    ]);
}

} // verus!
