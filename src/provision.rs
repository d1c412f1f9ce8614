//! Provisioning of the companion executable, as a state machine: each step takes
//! the outcome of the last outside operation (an event) and gives the next
//! operation to perform (an action). The caller performs the actions, so every
//! decision here is independent of the file system and the network.
use vstd::prelude::*;
use crate::error::{ErrorModel, LaunchError};
use crate::platform::{asset_name, asset_name_spec, Arch, Os, BINARY_NAME};
use crate::settings::strings_view;

verus! {

/// The repository whose releases carry the executable.
pub const RELEASE_REPOSITORY: &'static str = "rubiojr/gas";

/// One downloadable file of a release.
pub struct AssetDescriptor {
    pub name: String,
    pub download_url: String,
}

/// A published release: its version and its assets, in the feed's order.
pub struct ReleaseDescriptor {
    pub version: String,
    pub assets: Vec<AssetDescriptor>,
}

/// Where an installed executable lives.
pub struct InstalledBinary {
    pub install_directory: String,
    pub executable_path: String,
}

/// An entry of the cache root to delete.
pub enum Removal {
    /// Delete the entry recursively, as a directory.
    Dir(String),
    /// Delete the entry as a single file.
    File(String),
}

/// What the provisioner waits for.
pub enum Stage {
    CheckingPrevious { previous: InstalledBinary },
    Resolving,
    CheckingInstalled { release: ReleaseDescriptor },
    CreatingDir { version: String, url: String },
    Rechecking { version: String, url: String },
    Downloading { version: String },
    MarkingExecutable { version: String },
    Listing { version: String },
    Cleaning { version: String, pending: Vec<Removal> },
    Finished,
}

/// The state of one provisioning attempt.
pub struct Provisioner {
    pub os: Os,
    pub arch: Arch,
    pub stage: Stage,
    /// Failures of cleanup, which never abort provisioning.
    pub warnings: Vec<String>,
}

/// The outcome of an action, handed back by the caller.
pub enum Event {
    /// Whether a regular file exists at the path checked.
    FileChecked(bool),
    ReleaseFetched(Result<ReleaseDescriptor, String>),
    DirCreated(Result<(), String>),
    Downloaded(Result<(), String>),
    MadeExecutable(Result<(), String>),
    /// The names of the entries of the cache root.
    Listed(Result<Vec<String>, String>),
    Removed(Result<(), String>),
}

/// The next operation for the caller.
pub enum Action {
    /// Tell whether a regular file exists at this path.
    CheckFile(String),
    /// Fetch the latest release of `RELEASE_REPOSITORY` that has assets and is no pre-release.
    FetchRelease,
    /// Create this directory and its parents; an existing directory is success.
    CreateDir(String),
    /// Download the asset at `url` to `path`, stored as it is.
    Download { url: String, path: String },
    MakeExecutable(String),
    /// List the names of the entries of the cache root.
    ListCacheRoot,
    Remove(Removal),
    /// Provisioning is over.
    Finish(Result<InstalledBinary, LaunchError>),
}

pub ghost struct AssetModel {
    pub name: Seq<char>,
    pub url: Seq<char>,
}

pub ghost struct ReleaseModel {
    pub version: Seq<char>,
    pub assets: Seq<AssetModel>,
}

pub ghost struct InstalledModel {
    pub dir: Seq<char>,
    pub path: Seq<char>,
}

pub ghost enum RemovalModel {
    Dir(Seq<char>),
    File(Seq<char>),
}

pub ghost enum StageModel {
    CheckingPrevious { previous: InstalledModel },
    Resolving,
    CheckingInstalled { release: ReleaseModel },
    CreatingDir { version: Seq<char>, url: Seq<char> },
    Rechecking { version: Seq<char>, url: Seq<char> },
    Downloading { version: Seq<char> },
    MarkingExecutable { version: Seq<char> },
    Listing { version: Seq<char> },
    Cleaning { version: Seq<char>, pending: Seq<RemovalModel> },
    Finished,
}

pub ghost struct ProvisionerModel {
    pub os: Os,
    pub arch: Arch,
    pub stage: StageModel,
    pub warnings: Seq<Seq<char>>,
}

pub ghost enum EventModel {
    FileChecked(bool),
    ReleaseFetched(Result<ReleaseModel, Seq<char>>),
    DirCreated(Result<(), Seq<char>>),
    Downloaded(Result<(), Seq<char>>),
    MadeExecutable(Result<(), Seq<char>>),
    Listed(Result<Seq<Seq<char>>, Seq<char>>),
    Removed(Result<(), Seq<char>>),
}

pub ghost enum ActionModel {
    CheckFile(Seq<char>),
    FetchRelease,
    CreateDir(Seq<char>),
    Download { url: Seq<char>, path: Seq<char> },
    MakeExecutable(Seq<char>),
    ListCacheRoot,
    Remove(RemovalModel),
    Finish(Result<InstalledModel, ErrorModel>),
}

impl View for AssetDescriptor {
    type V = AssetModel;

    open spec fn view(&self) -> AssetModel {
        AssetModel { name: self.name@, url: self.download_url@ }
    }
}

pub open spec fn assets_view(v: Seq<AssetDescriptor>) -> Seq<AssetModel> {
    v.map_values(|a: AssetDescriptor| a@)
}

impl View for ReleaseDescriptor {
    type V = ReleaseModel;

    open spec fn view(&self) -> ReleaseModel {
        ReleaseModel { version: self.version@, assets: assets_view(self.assets@) }
    }
}

impl View for InstalledBinary {
    type V = InstalledModel;

    open spec fn view(&self) -> InstalledModel {
        InstalledModel { dir: self.install_directory@, path: self.executable_path@ }
    }
}

impl View for Removal {
    type V = RemovalModel;

    open spec fn view(&self) -> RemovalModel {
        match self {
            Removal::Dir(n) => RemovalModel::Dir(n@),
            Removal::File(n) => RemovalModel::File(n@),
        }
    }
}

pub open spec fn removals_view(v: Seq<Removal>) -> Seq<RemovalModel> {
    v.map_values(|r: Removal| r@)
}

impl View for Stage {
    type V = StageModel;

    open spec fn view(&self) -> StageModel {
        match self {
            Stage::CheckingPrevious { previous } => StageModel::CheckingPrevious { previous: previous@ },
            Stage::Resolving => StageModel::Resolving,
            Stage::CheckingInstalled { release } => StageModel::CheckingInstalled { release: release@ },
            Stage::CreatingDir { version, url } => StageModel::CreatingDir { version: version@, url: url@ },
            Stage::Rechecking { version, url } => StageModel::Rechecking { version: version@, url: url@ },
            Stage::Downloading { version } => StageModel::Downloading { version: version@ },
            Stage::MarkingExecutable { version } => StageModel::MarkingExecutable { version: version@ },
            Stage::Listing { version } => StageModel::Listing { version: version@ },
            Stage::Cleaning { version, pending } => StageModel::Cleaning {
                version: version@,
                pending: removals_view(pending@),
            },
            Stage::Finished => StageModel::Finished,
        }
    }
}

impl View for Provisioner {
    type V = ProvisionerModel;

    open spec fn view(&self) -> ProvisionerModel {
        ProvisionerModel {
            os: self.os,
            arch: self.arch,
            stage: self.stage@,
            warnings: strings_view(self.warnings@),
        }
    }
}

pub open spec fn unit_result_view(r: Result<(), String>) -> Result<(), Seq<char>> {
    match r {
        Ok(()) => Ok(()),
        Err(m) => Err(m@),
    }
}

impl View for Event {
    type V = EventModel;

    open spec fn view(&self) -> EventModel {
        match self {
            Event::FileChecked(b) => EventModel::FileChecked(*b),
            Event::ReleaseFetched(r) => EventModel::ReleaseFetched(
                match r {
                    Ok(rel) => Ok(rel@),
                    Err(m) => Err(m@),
                },
            ),
            Event::DirCreated(r) => EventModel::DirCreated(unit_result_view(*r)),
            Event::Downloaded(r) => EventModel::Downloaded(unit_result_view(*r)),
            Event::MadeExecutable(r) => EventModel::MadeExecutable(unit_result_view(*r)),
            Event::Listed(r) => EventModel::Listed(
                match r {
                    Ok(v) => Ok(strings_view(v@)),
                    Err(m) => Err(m@),
                },
            ),
            Event::Removed(r) => EventModel::Removed(unit_result_view(*r)),
        }
    }
}

impl View for Action {
    type V = ActionModel;

    open spec fn view(&self) -> ActionModel {
        match self {
            Action::CheckFile(p) => ActionModel::CheckFile(p@),
            Action::FetchRelease => ActionModel::FetchRelease,
            Action::CreateDir(d) => ActionModel::CreateDir(d@),
            Action::Download { url, path } => ActionModel::Download { url: url@, path: path@ },
            Action::MakeExecutable(p) => ActionModel::MakeExecutable(p@),
            Action::ListCacheRoot => ActionModel::ListCacheRoot,
            Action::Remove(r) => ActionModel::Remove(r@),
            Action::Finish(r) => ActionModel::Finish(
                match r {
                    Ok(b) => Ok(b@),
                    Err(e) => Err(e@),
                },
            ),
        }
    }
}

/// The install directory of a version: `<binary>-<version>`.
pub open spec fn version_dir_spec(version: Seq<char>) -> Seq<char> {
    BINARY_NAME@ + "-"@ + version
}

/// The executable of a version: `<binary>-<version>/<binary>`.
pub open spec fn binary_path_spec(version: Seq<char>) -> Seq<char> {
    version_dir_spec(version) + "/"@ + BINARY_NAME@
}

pub open spec fn installed_spec(version: Seq<char>) -> InstalledModel {
    InstalledModel { dir: version_dir_spec(version), path: binary_path_spec(version) }
}

/// The download URL of the first asset with the given name.
pub open spec fn find_asset_spec(assets: Seq<AssetModel>, name: Seq<char>) -> Option<Seq<char>>
    decreases assets.len(),
{
    if assets.len() == 0 {
        None
    } else if assets[0].name == name {
        Some(assets[0].url)
    } else {
        find_asset_spec(assets.subrange(1, assets.len() as int), name)
    }
}

/// What cleanup does with one entry of the cache root: every entry but the
/// current version's directory is removed recursively, and a loose executable
/// of the old non-versioned layout is removed as a file too.
pub open spec fn entry_removals(entry: Seq<char>, current: Seq<char>) -> Seq<RemovalModel> {
    (if entry != current { seq![RemovalModel::Dir(entry)] } else { seq![] }) + (if entry
        == BINARY_NAME@ {
        seq![RemovalModel::File(entry)]
    } else {
        seq![]
    })
}

/// The removals of cleanup, entry by entry in the listing's order.
pub open spec fn cleanup_plan(entries: Seq<Seq<char>>, current: Seq<char>) -> Seq<RemovalModel>
    decreases entries.len(),
{
    if entries.len() == 0 {
        seq![]
    } else {
        cleanup_plan(entries.drop_last(), current) + entry_removals(entries.last(), current)
    }
}

pub open spec fn finish_ok(version: Seq<char>) -> ActionModel {
    ActionModel::Finish(Ok(installed_spec(version)))
}

pub open spec fn finish_err(e: ErrorModel) -> ActionModel {
    ActionModel::Finish(Err(e))
}

pub open spec fn finished(s: ProvisionerModel) -> ProvisionerModel {
    ProvisionerModel { stage: StageModel::Finished, ..s }
}

pub open spec fn with_stage(s: ProvisionerModel, stage: StageModel) -> ProvisionerModel {
    ProvisionerModel { stage, ..s }
}

/// The first state and action of an attempt. With the result of an earlier
/// attempt, its executable is checked first, before any network access.
pub open spec fn start_spec(os: Os, arch: Arch, previous: Option<InstalledModel>) -> (
    ProvisionerModel,
    ActionModel,
) {
    match previous {
        Some(b) => (
            ProvisionerModel {
                os,
                arch,
                stage: StageModel::CheckingPrevious { previous: b },
                warnings: seq![],
            },
            ActionModel::CheckFile(b.path),
        ),
        None => (
            ProvisionerModel { os, arch, stage: StageModel::Resolving, warnings: seq![] },
            ActionModel::FetchRelease,
        ),
    }
}

/// Whether an event answers the action that the state waits on.
pub open spec fn expects(s: ProvisionerModel, e: EventModel) -> bool {
    match (s.stage, e) {
        (StageModel::CheckingPrevious { .. }, EventModel::FileChecked(_)) => true,
        (StageModel::Resolving, EventModel::ReleaseFetched(_)) => true,
        (StageModel::CheckingInstalled { .. }, EventModel::FileChecked(_)) => true,
        (StageModel::CreatingDir { .. }, EventModel::DirCreated(_)) => true,
        (StageModel::Rechecking { .. }, EventModel::FileChecked(_)) => true,
        (StageModel::Downloading { .. }, EventModel::Downloaded(_)) => true,
        (StageModel::MarkingExecutable { .. }, EventModel::MadeExecutable(_)) => true,
        (StageModel::Listing { .. }, EventModel::Listed(_)) => true,
        (StageModel::Cleaning { .. }, EventModel::Removed(_)) => true,
        _ => false,
    }
}

/// Hands out the removals from the last one; with none left the attempt
/// succeeds.
pub open spec fn cleaning_spec(
    s: ProvisionerModel,
    version: Seq<char>,
    pending: Seq<RemovalModel>,
) -> (ProvisionerModel, ActionModel) {
    if pending.len() == 0 {
        (finished(s), finish_ok(version))
    } else {
        (
            with_stage(s, StageModel::Cleaning { version, pending: pending.drop_last() }),
            ActionModel::Remove(pending.last()),
        )
    }
}

/// One transition of provisioning.
pub open spec fn next_spec(s: ProvisionerModel, e: EventModel) -> (ProvisionerModel, ActionModel) {
    match (s.stage, e) {
        (StageModel::CheckingPrevious { previous }, EventModel::FileChecked(present)) => {
            if present {
                (finished(s), ActionModel::Finish(Ok(previous)))
            } else {
                (with_stage(s, StageModel::Resolving), ActionModel::FetchRelease)
            }
        },
        (StageModel::Resolving, EventModel::ReleaseFetched(r)) => match r {
            Err(m) => (finished(s), finish_err(ErrorModel::ReleaseResolution(m))),
            Ok(release) => (
                with_stage(s, StageModel::CheckingInstalled { release }),
                ActionModel::CheckFile(binary_path_spec(release.version)),
            ),
        },
        (StageModel::CheckingInstalled { release }, EventModel::FileChecked(present)) => {
            if present {
                (finished(s), finish_ok(release.version))
            } else {
                match find_asset_spec(release.assets, asset_name_spec(s.os, s.arch)) {
                    None => (
                        finished(s),
                        finish_err(ErrorModel::AssetNotFound(asset_name_spec(s.os, s.arch))),
                    ),
                    Some(url) => (
                        with_stage(s, StageModel::CreatingDir { version: release.version, url }),
                        ActionModel::CreateDir(version_dir_spec(release.version)),
                    ),
                }
            }
        },
        (StageModel::CreatingDir { version, url }, EventModel::DirCreated(r)) => match r {
            Err(m) => (finished(s), finish_err(ErrorModel::Install(m))),
            Ok(()) => (
                with_stage(s, StageModel::Rechecking { version, url }),
                ActionModel::CheckFile(binary_path_spec(version)),
            ),
        },
        (StageModel::Rechecking { version, url }, EventModel::FileChecked(present)) => {
            if present {
                (finished(s), finish_ok(version))
            } else {
                (
                    with_stage(s, StageModel::Downloading { version }),
                    ActionModel::Download { url, path: binary_path_spec(version) },
                )
            }
        },
        (StageModel::Downloading { version }, EventModel::Downloaded(r)) => match r {
            Err(m) => (finished(s), finish_err(ErrorModel::Download(m))),
            Ok(()) => (
                with_stage(s, StageModel::MarkingExecutable { version }),
                ActionModel::MakeExecutable(binary_path_spec(version)),
            ),
        },
        (StageModel::MarkingExecutable { version }, EventModel::MadeExecutable(r)) => match r {
            Err(m) => (finished(s), finish_err(ErrorModel::Permission(m))),
            Ok(()) => (with_stage(s, StageModel::Listing { version }), ActionModel::ListCacheRoot),
        },
        (StageModel::Listing { version }, EventModel::Listed(r)) => match r {
            Err(m) => (
                finished(ProvisionerModel { warnings: s.warnings.push(m), ..s }),
                finish_ok(version),
            ),
            Ok(entries) => cleaning_spec(
                s,
                version,
                cleanup_plan(entries, version_dir_spec(version)),
            ),
        },
        (StageModel::Cleaning { version, pending }, EventModel::Removed(r)) => {
            let s2 = match r {
                Err(m) => ProvisionerModel { warnings: s.warnings.push(m), ..s },
                Ok(()) => s,
            };
            cleaning_spec(s2, version, pending)
        },
        // not reached: `Provisioner::step` requires `expects`
        _ => (s, ActionModel::ListCacheRoot),
    }
}

/// The install directory of a version.
pub fn version_dir(version: &String) -> (r: String)
    ensures
        r@ == version_dir_spec(version@),
{
    let mut d = String::from_str(BINARY_NAME);
    d.append("-");
    d.append(version.as_str());
    d
}

/// The path of the executable of a version.
pub fn binary_path(version: &String) -> (r: String)
    ensures
        r@ == binary_path_spec(version@),
{
    let mut p = version_dir(version);
    p.append("/");
    p.append(BINARY_NAME);
    p
}

fn installed(version: &String) -> (r: InstalledBinary)
    ensures
        r@ == installed_spec(version@),
{
    InstalledBinary { install_directory: version_dir(version), executable_path: binary_path(version) }
}

/// The download URL of the first asset named `name`.
pub fn find_asset(assets: &Vec<AssetDescriptor>, name: &String) -> (r: Option<String>)
    ensures
        match r {
            Some(u) => find_asset_spec(assets_view(assets@), name@) == Some(u@),
            None => find_asset_spec(assets_view(assets@), name@) is None,
        },
{
    let ghost all = assets_view(assets@);
    let mut i: usize = 0;
    assert(all.subrange(0, all.len() as int) =~= all);
    while i < assets.len()
        invariant
            i <= assets.len(),
            all == assets_view(assets@),
            find_asset_spec(all, name@) == find_asset_spec(all.subrange(i as int, all.len() as int), name@),
        decreases assets.len() - i,
    {
        let ghost rest = all.subrange(i as int, all.len() as int);
        assert(rest[0] == assets@[i as int]@);
        if assets[i].name == *name {
            return Some(assets[i].download_url.clone());
        }
        assert(rest.subrange(1, rest.len() as int) =~= all.subrange(i + 1, all.len() as int));
        i = i + 1;
    }
    assert(all.subrange(i as int, all.len() as int).len() == 0);
    None
}

/// The removals of cleanup for a listing of the cache root, `current` being
/// the install directory to keep.
pub fn cleanup_removals(entries: &Vec<String>, current: &String) -> (r: Vec<Removal>)
    ensures
        removals_view(r@) == cleanup_plan(strings_view(entries@), current@),
{
    let ghost all = strings_view(entries@);
    let loose = String::from_str(BINARY_NAME);
    let mut out: Vec<Removal> = Vec::new();
    let mut i: usize = 0;
    while i < entries.len()
        invariant
            i <= entries.len(),
            all == strings_view(entries@),
            loose@ == BINARY_NAME@,
            removals_view(out@) == cleanup_plan(all.take(i as int), current@),
        decreases entries.len() - i,
    {
        let ghost before = out@;
        assert(all.take(i + 1).drop_last() =~= all.take(i as int));
        let entry = &entries[i];
        if *entry != *current {
            out.push(Removal::Dir(entry.clone()));
        }
        if *entry == loose {
            out.push(Removal::File(entry.clone()));
        }
        assert(removals_view(out@) =~= removals_view(before) + entry_removals(all[i as int], current@));
        i = i + 1;
    }
    assert(all.take(entries.len() as int) =~= all);
    out
}

impl Provisioner {
    /// Begins an attempt on a platform, given the result of an earlier attempt if any.
    pub fn start(os: Os, arch: Arch, previous: Option<InstalledBinary>) -> (r: (Provisioner, Action))
        ensures
            (r.0@, r.1@) == start_spec(
                os,
                arch,
                match previous {
                    Some(b) => Some(b@),
                    None => None,
                },
            ),
    {
        let warnings: Vec<String> = Vec::new();
        let r = match previous {
            Some(b) => {
                let path = b.executable_path.clone();
                (
                    Provisioner { os, arch, stage: Stage::CheckingPrevious { previous: b }, warnings },
                    Action::CheckFile(path),
                )
            },
            None => (Provisioner { os, arch, stage: Stage::Resolving, warnings }, Action::FetchRelease),
        };
        assert(r.0@.warnings =~= seq![]);
        r
    }

    /// Whether `event` answers the action that this state waits on.
    pub fn expects(&self, event: &Event) -> (r: bool)
        ensures
            r == expects(self@, event@),
    {
        match (&self.stage, event) {
            (Stage::CheckingPrevious { .. }, Event::FileChecked(_)) => true,
            (Stage::Resolving, Event::ReleaseFetched(_)) => true,
            (Stage::CheckingInstalled { .. }, Event::FileChecked(_)) => true,
            (Stage::CreatingDir { .. }, Event::DirCreated(_)) => true,
            (Stage::Rechecking { .. }, Event::FileChecked(_)) => true,
            (Stage::Downloading { .. }, Event::Downloaded(_)) => true,
            (Stage::MarkingExecutable { .. }, Event::MadeExecutable(_)) => true,
            (Stage::Listing { .. }, Event::Listed(_)) => true,
            (Stage::Cleaning { .. }, Event::Removed(_)) => true,
            _ => false,
        }
    }

    fn cleaning(os: Os, arch: Arch, warnings: Vec<String>, version: String, pending: Vec<Removal>) -> (r: (
        Provisioner,
        Action,
    ))
        ensures
            (r.0@, r.1@) == cleaning_spec(
                ProvisionerModel {
                    os,
                    arch,
                    stage: StageModel::Finished,
                    warnings: strings_view(warnings@),
                },
                version@,
                removals_view(pending@),
            ),
    {
        let mut pending = pending;
        let ghost before = pending@;
        match pending.pop() {
            None => {
                let done = installed(&version);
                (Provisioner { os, arch, stage: Stage::Finished, warnings }, Action::Finish(Ok(done)))
            },
            Some(removal) => {
                assert(removals_view(pending@) =~= removals_view(before).drop_last());
                (
                    Provisioner { os, arch, stage: Stage::Cleaning { version, pending }, warnings },
                    Action::Remove(removal),
                )
            },
        }
    }

    /// Takes the outcome of the last action and gives the next state and action.
    pub fn step(self, event: Event) -> (r: (Provisioner, Action))
        requires
            expects(self@, event@),
        ensures
            (r.0@, r.1@) == next_spec(self@, event@),
    {
        let Provisioner { os, arch, stage, warnings } = self;
        match (stage, event) {
            (Stage::CheckingPrevious { previous }, Event::FileChecked(present)) => {
                if present {
                    (Provisioner { os, arch, stage: Stage::Finished, warnings }, Action::Finish(Ok(previous)))
                } else {
                    (Provisioner { os, arch, stage: Stage::Resolving, warnings }, Action::FetchRelease)
                }
            },
            (Stage::Resolving, Event::ReleaseFetched(r)) => match r {
                Err(m) => (
                    Provisioner { os, arch, stage: Stage::Finished, warnings },
                    Action::Finish(Err(LaunchError::ReleaseResolution(m))),
                ),
                Ok(release) => {
                    let path = binary_path(&release.version);
                    (
                        Provisioner { os, arch, stage: Stage::CheckingInstalled { release }, warnings },
                        Action::CheckFile(path),
                    )
                },
            },
            (Stage::CheckingInstalled { release }, Event::FileChecked(present)) => {
                if present {
                    let done = installed(&release.version);
                    (Provisioner { os, arch, stage: Stage::Finished, warnings }, Action::Finish(Ok(done)))
                } else {
                    let name = asset_name(os, arch);
                    match find_asset(&release.assets, &name) {
                        None => (
                            Provisioner { os, arch, stage: Stage::Finished, warnings },
                            Action::Finish(Err(LaunchError::AssetNotFound(name))),
                        ),
                        Some(url) => {
                            let dir = version_dir(&release.version);
                            (
                                Provisioner {
                                    os,
                                    arch,
                                    stage: Stage::CreatingDir { version: release.version, url },
                                    warnings,
                                },
                                Action::CreateDir(dir),
                            )
                        },
                    }
                }
            },
            (Stage::CreatingDir { version, url }, Event::DirCreated(r)) => match r {
                Err(m) => (
                    Provisioner { os, arch, stage: Stage::Finished, warnings },
                    Action::Finish(Err(LaunchError::Install(m))),
                ),
                Ok(()) => {
                    let path = binary_path(&version);
                    (
                        Provisioner { os, arch, stage: Stage::Rechecking { version, url }, warnings },
                        Action::CheckFile(path),
                    )
                },
            },
            (Stage::Rechecking { version, url }, Event::FileChecked(present)) => {
                if present {
                    let done = installed(&version);
                    (Provisioner { os, arch, stage: Stage::Finished, warnings }, Action::Finish(Ok(done)))
                } else {
                    let path = binary_path(&version);
                    (
                        Provisioner { os, arch, stage: Stage::Downloading { version }, warnings },
                        Action::Download { url, path },
                    )
                }
            },
            (Stage::Downloading { version }, Event::Downloaded(r)) => match r {
                Err(m) => (
                    Provisioner { os, arch, stage: Stage::Finished, warnings },
                    Action::Finish(Err(LaunchError::Download(m))),
                ),
                Ok(()) => {
                    let path = binary_path(&version);
                    (
                        Provisioner { os, arch, stage: Stage::MarkingExecutable { version }, warnings },
                        Action::MakeExecutable(path),
                    )
                },
            },
            (Stage::MarkingExecutable { version }, Event::MadeExecutable(r)) => match r {
                Err(m) => (
                    Provisioner { os, arch, stage: Stage::Finished, warnings },
                    Action::Finish(Err(LaunchError::Permission(m))),
                ),
                Ok(()) => (
                    Provisioner { os, arch, stage: Stage::Listing { version }, warnings },
                    Action::ListCacheRoot,
                ),
            },
            (Stage::Listing { version }, Event::Listed(r)) => match r {
                Err(m) => {
                    let mut warnings = warnings;
                    let ghost before = warnings@;
                    warnings.push(m);
                    assert(strings_view(warnings@) =~= strings_view(before).push(m@));
                    let done = installed(&version);
                    (Provisioner { os, arch, stage: Stage::Finished, warnings }, Action::Finish(Ok(done)))
                },
                Ok(entries) => {
                    let current = version_dir(&version);
                    let pending = cleanup_removals(&entries, &current);
                    Self::cleaning(os, arch, warnings, version, pending)
                },
            },
            (Stage::Cleaning { version, pending }, Event::Removed(r)) => {
                let mut warnings = warnings;
                let ghost before = warnings@;
                match r {
                    Err(m) => {
                        warnings.push(m);
                        assert(strings_view(warnings@) =~= strings_view(before).push(m@));
                    },
                    Ok(()) => {},
                }
                Self::cleaning(os, arch, warnings, version, pending)
            },
            (stage, _) => (Provisioner { os, arch, stage, warnings }, Action::ListCacheRoot),
        }
    }
}

} // verus!
