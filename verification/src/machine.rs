//! The update orchestrator, written as a state machine. The driver
//! performs one action at a time — a read, a download, a volume
//! command, a copy — and answers with an event; `step` takes the run
//! from state to state and names the next action. Every transition is
//! pinned by `step_rel`, so the load-bearing ordering is checked: both
//! artifacts validate before anything destructive; selection finishes
//! first, creating the volume or renaming it to the target name; stale
//! boot entries then go away before the core volume is written; and
//! the new boot entry is committed only after the write and the flush.
//!
//! A failure event in any working state ends the run in `Failed`; in
//! the cleanup state it is ignored, since cleanup is best-effort.

use vstd::prelude::*;
use crate::boot;
use crate::boot::{entry_name_seq, stale_seq};
use crate::config::Remote;
use crate::errors::Error;
use crate::lvm::{lv_path_seq, Lv, Vg};
use crate::mounts::MountEntry;
use crate::select;
use crate::select::{candidate_seq, new_name_seq, Selection};
use crate::system::{cache_seq, dest_seq, url_seq, Kind, Package, System};
use crate::trust::{valid_artifact, verify_rejects};
use crate::version::Version;

verus! {

/// Where a run stands: what it waits for next.
#[derive(Debug)]
pub enum State {
    /// Waiting for the cached artifact and signature of a package.
    FetchCache { kind: Kind },
    /// Waiting for a fresh download of a package.
    FetchDownload { kind: Kind },
    /// Waiting for the destination volume group to be looked up.
    AwaitVg,
    /// Waiting for the mount table.
    AwaitMounts { vg: Vg },
    /// Waiting for the group's volume listing.
    AwaitLvs { vg: Vg, mounts: Vec<MountEntry> },
    /// Waiting for a fresh volume to be created.
    AwaitCreate { lv: Lv },
    /// Waiting for the reused volume's rename to the target name.
    AwaitRename { lv: Lv },
    /// Waiting for the boot directory listing.
    AwaitBootList { lv: Lv },
    /// Waiting for the stale boot entries to be removed.
    AwaitRemovals { lv: Lv },
    /// Waiting for the core image to be written onto the volume.
    AwaitCoreCopy { lv: Lv },
    /// Waiting for the boot binary to be staged under its `.new` name.
    AwaitStage,
    /// Waiting for the storage flush.
    AwaitSync,
    /// Waiting for the staged entry to be renamed into place.
    AwaitCommit,
    /// Waiting for the cache files to be removed, best-effort.
    AwaitCleanup,
    Done,
    Failed { error: Error },
}

/// What the driver reports back after an action.
#[derive(Debug)]
pub enum Event {
    /// The cache files as found; absent files come back as `None`.
    CacheFiles { data: Option<Vec<u8>>, sig: Option<String> },
    /// Both downloads landed; their contents.
    Downloaded { data: Vec<u8>, sig: String },
    /// The volume group lookup's result.
    VgFound { vg: Option<Vg> },
    /// The decoded mount table.
    MountTable { entries: Vec<MountEntry> },
    /// The group's volumes.
    LvListing { lvs: Vec<Lv> },
    /// The boot directory's entry names.
    BootEntries { names: Vec<String> },
    /// The requested action completed.
    Ack,
    /// The requested action failed, with the mapped error.
    Fail { error: Error },
}

/// What the driver must do next.
#[derive(Debug)]
pub enum Action {
    /// Read both cache files; report absent ones as `None`.
    ReadCache { file: String, sig: String },
    /// Download the artifact and its signature to the cache.
    DownloadPair { file_url: String, file_dst: String, sig_url: String, sig_dst: String },
    /// Look the volume group up by name.
    FindVg { name: String },
    /// Read the mount table.
    ReadMounts,
    /// List the group's volumes.
    ListVolumes { vg_name: String },
    /// Create a volume of the given size.
    CreateVolume { vg_name: String, lv_name: String, size: String },
    /// List the boot entries directory.
    ListBootEntries { directory: String },
    /// Remove exactly these entries from the boot directory.
    RemoveBootEntries { directory: String, names: Vec<String> },
    /// Rename the volume.
    RenameVolume { vg_name: String, from: String, to: String },
    /// Copy the verified core image bytes onto the volume device.
    WriteCore { src: String, dst: String },
    /// Copy the boot binary to its staged name.
    StageBoot { src: String, dst: String },
    /// Flush storage.
    SyncDisks,
    /// Rename the staged entry to its final name: the commit point.
    CommitBoot { from: String, to: String },
    /// Remove the cache files; failures here are ignored.
    RemoveCacheFiles { files: Vec<String> },
    /// The run is over; see the state.
    Stop,
}

/// One run of the updater.
#[derive(Debug)]
pub struct Updater {
    pub sys: System,
    pub dist_url: String,
    pub target: Version,
    pub state: State,
}

/// The package of a kind.
pub open spec fn pkg_of(sys: System, kind: Kind) -> Package {
    if kind is Core {
        sys.core
    } else {
        sys.efiboot
    }
}

/// The cache file of a package kind.
pub open spec fn cache_of(sys: System, kind: Kind) -> Seq<char> {
    cache_seq(sys.download_cache@, sys.os_name@, pkg_of(sys, kind).name@)
}

/// The cache file of a package kind's signature.
pub open spec fn cache_sig_of(sys: System, kind: Kind) -> Seq<char> {
    cache_of(sys, kind) + ".sig"@
}

/// The download URL of a package kind.
pub open spec fn url_of(pre: Updater, kind: Kind) -> Seq<char> {
    url_seq(pre.dist_url@, pre.target@, pre.sys.os_name@, pkg_of(pre.sys, kind).name@)
}

/// The final boot entry path of the target version.
pub open spec fn efi_dest(pre: Updater) -> Seq<char> {
    dest_seq(
        pre.sys.efiboot.kind,
        pre.sys.efiboot.destination@,
        pre.sys.efiboot.name@,
        pre.sys.os_name@,
        pre.target@,
    )
}

/// The action reads a kind's cache pair.
pub open spec fn read_cache_action(pre: Updater, kind: Kind, action: Action) -> bool {
    action matches Action::ReadCache { file, sig } && file@ == cache_of(pre.sys, kind) && sig@
        == cache_sig_of(pre.sys, kind)
}

/// The action downloads a kind's artifact pair into the cache.
pub open spec fn download_action(pre: Updater, kind: Kind, action: Action) -> bool {
    action matches Action::DownloadPair { file_url, file_dst, sig_url, sig_dst } && file_url@
        == url_of(pre, kind) && file_dst@ == cache_of(pre.sys, kind) && sig_url@ == url_of(pre, kind)
        + ".sig"@ && sig_dst@ == cache_sig_of(pre.sys, kind)
}

/// A kind's artifact is fetched and validated: the boot binary first,
/// then the core image, then the volume group lookup.
pub open spec fn fetched(pre: Updater, kind: Kind, post: Updater, action: Action) -> bool {
    if kind is Efiboot {
        (post.state matches State::FetchCache { kind: k } && k is Core) && read_cache_action(
            pre,
            Kind::Core,
            action,
        )
    } else {
        (post.state is AwaitVg) && (action matches Action::FindVg { name } && name@
            == pre.sys.core.destination@)
    }
}

/// The run failed with exactly this error.
pub open spec fn failed_with(post: Updater, action: Action, e: Error) -> bool {
    (post.state matches State::Failed { error } && error == e) && action is Stop
}

/// The event does not answer the pending action.
pub open spec fn unexpected(post: Updater, action: Action) -> bool {
    failed_with(post, action, Error::UnexpectedEvent)
}

/// The next action writes the core image onto the chosen volume.
pub open spec fn write_core_step(pre: Updater, lv: Lv, post: Updater, action: Action) -> bool {
    &&& post.state matches State::AwaitCoreCopy { lv: l } && l == lv
    &&& action matches Action::WriteCore { src, dst } && src@ == cache_of(pre.sys, Kind::Core)
        && dst@ == lv_path_seq(lv.vg.name@, lv.name@)
}

/// The next action lists the boot directory.
pub open spec fn list_boot_action(pre: Updater, action: Action) -> bool {
    action matches Action::ListBootEntries { directory } && directory@
        == pre.sys.efiboot.destination@
}

/// The complete transition relation of one step.
pub open spec fn step_rel(pre: Updater, event: Event, post: Updater, action: Action) -> bool {
    &&& post.sys == pre.sys
    &&& post.dist_url == pre.dist_url
    &&& post.target == pre.target
    &&& match event {
        Event::Fail { error } => match pre.state {
            State::AwaitCleanup => post.state is Done && action is Stop,
            State::Done => post.state is Done && action is Stop,
            State::Failed { error: e0 } => (post.state matches State::Failed { error: e1 } && e1
                == e0) && action is Stop,
            _ => failed_with(post, action, error),
        },
        _ => match pre.state {
            State::FetchCache { kind } => match event {
                Event::CacheFiles { data, sig } => {
                    if (data matches Some(d) && sig matches Some(s)) && valid_artifact(
                        pre.sys.pubkey@,
                        data->Some_0@,
                        sig->Some_0@,
                        pre.target@,
                    ) {
                        fetched(pre, kind, post, action)
                    } else {
                        (post.state matches State::FetchDownload { kind: k } && k == kind)
                            && download_action(pre, kind, action)
                    }
                },
                _ => unexpected(post, action),
            },
            State::FetchDownload { kind } => match event {
                Event::Downloaded { data, sig } => {
                    if valid_artifact(pre.sys.pubkey@, data@, sig@, pre.target@) {
                        fetched(pre, kind, post, action)
                    } else {
                        (post.state matches State::Failed { error } && verify_rejects(
                            pre.sys.pubkey@,
                            data@,
                            sig@,
                            pre.target@,
                            error,
                        )) && action is Stop
                    }
                },
                _ => unexpected(post, action),
            },
            State::AwaitVg => match event {
                Event::VgFound { vg } => match vg {
                    Some(v) => (post.state matches State::AwaitMounts { vg: v2 } && v2 == v)
                        && action is ReadMounts,
                    None => (post.state matches State::Failed { error } && (error
                        matches Error::VgNotFound { vg: g } && g@ == pre.sys.core.destination@))
                        && action is Stop,
                },
                _ => unexpected(post, action),
            },
            State::AwaitMounts { vg } => match event {
                Event::MountTable { entries } => (post.state matches State::AwaitLvs {
                    vg: v2,
                    mounts,
                } && v2 == vg && mounts == entries) && (action matches Action::ListVolumes { vg_name }
                    && vg_name@ == vg.name@),
                _ => unexpected(post, action),
            },
            State::AwaitLvs { vg, mounts } => match event {
                Event::LvListing { lvs } => {
                    let cands = candidate_seq(
                        lvs@,
                        pre.sys.core.name@,
                        pre.sys.version@,
                        mounts.deep_view(),
                    );
                    if cands.len() > 0 && cands[0].name@ == new_name_seq(
                        pre.sys.core.name@,
                        pre.target@,
                    ) {
                        (post.state matches State::AwaitBootList { lv } && lv == cands[0])
                            && list_boot_action(pre, action)
                    } else if cands.len() > 0 {
                        &&& post.state matches State::AwaitRename { lv } && lv.name@
                            == new_name_seq(pre.sys.core.name@, pre.target@) && lv.vg.name@
                            == cands[0].vg.name@
                        &&& action matches Action::RenameVolume { vg_name, from, to } && vg_name@
                            == cands[0].vg.name@ && from@ == cands[0].name@ && to@ == new_name_seq(
                            pre.sys.core.name@,
                            pre.target@,
                        )
                    } else {
                        &&& post.state matches State::AwaitCreate { lv } && lv.name@
                            == new_name_seq(pre.sys.core.name@, pre.target@) && lv.vg.name@
                            == vg.name@
                        &&& action matches Action::CreateVolume { vg_name, lv_name, size }
                            && vg_name@ == vg.name@ && lv_name@ == new_name_seq(
                            pre.sys.core.name@,
                            pre.target@,
                        ) && size@ == (if pre.sys.core.size is Some {
                            pre.sys.core.size->Some_0@
                        } else {
                            "500M"@
                        })
                    }
                },
                _ => unexpected(post, action),
            },
            State::AwaitCreate { lv } => match event {
                Event::Ack => (post.state matches State::AwaitBootList { lv: l } && l == lv)
                    && list_boot_action(pre, action),
                _ => unexpected(post, action),
            },
            State::AwaitRename { lv } => match event {
                Event::Ack => (post.state matches State::AwaitBootList { lv: l } && l == lv)
                    && list_boot_action(pre, action),
                _ => unexpected(post, action),
            },
            State::AwaitBootList { lv } => match event {
                Event::BootEntries { names } => {
                    &&& post.state matches State::AwaitRemovals { lv: l } && l == lv
                    &&& action matches Action::RemoveBootEntries { directory, names: stale }
                        && directory@ == pre.sys.efiboot.destination@ && stale@ == stale_seq(
                        names@,
                        entry_name_seq(pre.sys.os_name@, pre.sys.version@),
                    )
                },
                _ => unexpected(post, action),
            },
            State::AwaitRemovals { lv } => match event {
                Event::Ack => write_core_step(pre, lv, post, action),
                _ => unexpected(post, action),
            },
            State::AwaitCoreCopy { lv } => match event {
                Event::Ack => (post.state is AwaitStage) && (action matches Action::StageBoot {
                    src,
                    dst,
                } && src@ == cache_of(pre.sys, Kind::Efiboot) && dst@ == efi_dest(pre) + ".new"@),
                _ => unexpected(post, action),
            },
            State::AwaitStage => match event {
                Event::Ack => post.state is AwaitSync && action is SyncDisks,
                _ => unexpected(post, action),
            },
            State::AwaitSync => match event {
                Event::Ack => (post.state is AwaitCommit) && (action matches Action::CommitBoot {
                    from,
                    to,
                } && from@ == efi_dest(pre) + ".new"@ && to@ == efi_dest(pre)),
                _ => unexpected(post, action),
            },
            State::AwaitCommit => match event {
                Event::Ack => (post.state is AwaitCleanup) && (action
                    matches Action::RemoveCacheFiles { files } && files@.len() == 4 && files@[0]@
                    == cache_of(pre.sys, Kind::Core) && files@[1]@ == cache_sig_of(
                    pre.sys,
                    Kind::Core,
                ) && files@[2]@ == cache_of(pre.sys, Kind::Efiboot) && files@[3]@ == cache_sig_of(
                    pre.sys,
                    Kind::Efiboot,
                )),
                _ => unexpected(post, action),
            },
            State::AwaitCleanup => match event {
                Event::Ack => post.state is Done && action is Stop,
                _ => unexpected(post, action),
            },
            State::Done => post.state is Done && action is Stop,
            State::Failed { error } => (post.state matches State::Failed { error: e1 } && e1
                == error) && action is Stop,
        },
    }
}

impl Updater {
    /// Begin a run toward `target`: the first action reads the boot
    /// binary's cache pair.
    pub fn start(sys: System, remote: Remote, target: Version) -> (r: (Updater, Action))
        ensures
            r.0.sys == sys,
            r.0.dist_url@ == remote.dist_url@,
            r.0.target == target,
            r.0.state matches State::FetchCache { kind } && kind is Efiboot,
            read_cache_action(r.0, Kind::Efiboot, r.1),
    {
        let file = sys.cache(&sys.efiboot);
        let sig = sys.cache_sig(&sys.efiboot);
        let u = Updater {
            sys,
            dist_url: remote.dist_url,
            target,
            state: State::FetchCache { kind: Kind::Efiboot },
        };
        (u, Action::ReadCache { file, sig })
    }

    /// Answer the pending action's event and get the next action.
    pub fn step(self, event: Event) -> (r: (Updater, Action))
        ensures
            step_rel(self, event, r.0, r.1),
    {
        let Updater { sys, dist_url, target, state } = self;
        let (state, action): (State, Action) = match (state, event) {
            (State::Done, _) => (State::Done, Action::Stop),
            (State::Failed { error }, _) => (State::Failed { error }, Action::Stop),
            (State::AwaitCleanup, Event::Ack) => (State::Done, Action::Stop),
            (State::AwaitCleanup, Event::Fail { .. }) => (State::Done, Action::Stop),
            (State::AwaitCleanup, _) => (
                State::Failed { error: Error::UnexpectedEvent },
                Action::Stop,
            ),
            (_, Event::Fail { error }) => (State::Failed { error }, Action::Stop),
            (State::FetchCache { kind }, Event::CacheFiles { data, sig }) => {
                let valid = match (&data, &sig) {
                    (Some(d), Some(s)) => {
                        match crate::trust::verify(
                            sys.pubkey.as_str(),
                            d.as_slice(),
                            s.as_str(),
                            &target,
                        ) {
                            Ok(()) => true,
                            Err(_) => false,
                        }
                    },
                    _ => false,
                };
                if valid {
                    Self::after_fetch(&sys, &dist_url, &target, kind)
                } else {
                    let pkg = match kind {
                        Kind::Core => &sys.core,
                        Kind::Efiboot => &sys.efiboot,
                    };
                    let act = Action::DownloadPair {
                        file_url: sys.url(pkg, dist_url.as_str(), &target),
                        file_dst: sys.cache(pkg),
                        sig_url: sys.url_sig(pkg, dist_url.as_str(), &target),
                        sig_dst: sys.cache_sig(pkg),
                    };
                    (State::FetchDownload { kind }, act)
                }
            },
            (State::FetchDownload { kind }, Event::Downloaded { data, sig }) => {
                match crate::trust::verify(
                    sys.pubkey.as_str(),
                    data.as_slice(),
                    sig.as_str(),
                    &target,
                ) {
                    Ok(()) => Self::after_fetch(&sys, &dist_url, &target, kind),
                    Err(error) => (State::Failed { error }, Action::Stop),
                }
            },
            (State::AwaitVg, Event::VgFound { vg }) => match vg {
                Some(v) => (State::AwaitMounts { vg: v }, Action::ReadMounts),
                None => (
                    State::Failed {
                        error: Error::VgNotFound { vg: sys.core.destination.clone() },
                    },
                    Action::Stop,
                ),
            },
            (State::AwaitMounts { vg }, Event::MountTable { entries }) => {
                let act = Action::ListVolumes { vg_name: vg.name.clone() };
                (State::AwaitLvs { vg, mounts: entries }, act)
            },
            (State::AwaitLvs { vg, mounts }, Event::LvListing { lvs }) => {
                match select::select(&sys.core, &lvs, &sys.version, &target, &mounts) {
                    Selection::Reuse { lv, rename_needed } => {
                        if rename_needed {
                            let new_name = Self::target_name(&sys, &target);
                            let renamed = lv.rename_to(new_name.clone());
                            let act = Action::RenameVolume {
                                vg_name: lv.vg.name.clone(),
                                from: lv.name(),
                                to: new_name,
                            };
                            (State::AwaitRename { lv: renamed }, act)
                        } else {
                            (
                                State::AwaitBootList { lv },
                                Action::ListBootEntries {
                                    directory: sys.efiboot.destination.clone(),
                                },
                            )
                        }
                    },
                    Selection::Create { name, size } => {
                        let lv = vg.create_lv(name.as_str(), size.as_str());
                        let act = Action::CreateVolume {
                            vg_name: vg.name.clone(),
                            lv_name: name,
                            size,
                        };
                        (State::AwaitCreate { lv }, act)
                    },
                }
            },
            (State::AwaitCreate { lv }, Event::Ack) => (
                State::AwaitBootList { lv },
                Action::ListBootEntries { directory: sys.efiboot.destination.clone() },
            ),
            (State::AwaitRename { lv }, Event::Ack) => (
                State::AwaitBootList { lv },
                Action::ListBootEntries { directory: sys.efiboot.destination.clone() },
            ),
            (State::AwaitBootList { lv }, Event::BootEntries { names }) => {
                let current = boot::entry_name(sys.os_name.as_str(), &sys.version);
                let stale = boot::stale_entries(&names, current.as_str());
                let act = Action::RemoveBootEntries {
                    directory: sys.efiboot.destination.clone(),
                    names: stale,
                };
                (State::AwaitRemovals { lv }, act)
            },
            (State::AwaitRemovals { lv }, Event::Ack) => Self::write_core(&sys, lv),
            (State::AwaitCoreCopy { lv: _ }, Event::Ack) => {
                let mut dst = sys.dest(&sys.efiboot, &target);
                dst.append(".new");
                let act = Action::StageBoot { src: sys.cache(&sys.efiboot), dst };
                (State::AwaitStage, act)
            },
            (State::AwaitStage, Event::Ack) => (State::AwaitSync, Action::SyncDisks),
            (State::AwaitSync, Event::Ack) => {
                let mut from = sys.dest(&sys.efiboot, &target);
                from.append(".new");
                let to = sys.dest(&sys.efiboot, &target);
                (State::AwaitCommit, Action::CommitBoot { from, to })
            },
            (State::AwaitCommit, Event::Ack) => {
                let mut files: Vec<String> = Vec::new();
                files.push(sys.cache(&sys.core));
                files.push(sys.cache_sig(&sys.core));
                files.push(sys.cache(&sys.efiboot));
                files.push(sys.cache_sig(&sys.efiboot));
                (State::AwaitCleanup, Action::RemoveCacheFiles { files })
            },
            (_, _) => (State::Failed { error: Error::UnexpectedEvent }, Action::Stop),
        };
        (Updater { sys, dist_url, target, state }, action)
    }

    /// The name the chosen volume must carry: `<core>_<target>`.
    fn target_name(sys: &System, target: &Version) -> (r: String)
        ensures
            r@ == new_name_seq(sys.core.name@, target@),
    {
        proof {
            reveal_strlit("_");
        }
        let mut s = sys.core.name.clone();
        s.append("_");
        let vs = target.render();
        s.append(vs.as_str());
        proof {
            assert(s@ =~= new_name_seq(sys.core.name@, target@));
        }
        s
    }

    /// Issue the core write onto the chosen volume.
    fn write_core(sys: &System, lv: Lv) -> (r: (State, Action))
        ensures
            r.0 matches State::AwaitCoreCopy { lv: l } && l == lv,
            r.1 matches Action::WriteCore { src, dst } && src@ == cache_of(*sys, Kind::Core)
                && dst@ == lv_path_seq(lv.vg.name@, lv.name@),
    {
        let act = Action::WriteCore { src: sys.cache(&sys.core), dst: lv.path() };
        (State::AwaitCoreCopy { lv }, act)
    }

    /// Advance past a validated fetch: the boot binary's fetch leads
    /// to the core's cache check, the core's fetch to volume lookup.
    fn after_fetch(sys: &System, dist_url: &String, target: &Version, kind: Kind) -> (r: (
        State,
        Action,
    ))
        ensures
            ({
                let pre = Updater {
                    sys: *sys,
                    dist_url: *dist_url,
                    target: *target,
                    state: State::FetchCache { kind },
                };
                if kind is Efiboot {
                    (r.0 matches State::FetchCache { kind: k } && k is Core) && read_cache_action(
                        pre,
                        Kind::Core,
                        r.1,
                    )
                } else {
                    (r.0 is AwaitVg) && (r.1 matches Action::FindVg { name } && name@
                        == sys.core.destination@)
                }
            }),
    {
        match kind {
            Kind::Efiboot => {
                let act = Action::ReadCache {
                    file: sys.cache(&sys.core),
                    sig: sys.cache_sig(&sys.core),
                };
                (State::FetchCache { kind: Kind::Core }, act)
            },
            Kind::Core => {
                let act = Action::FindVg { name: sys.core.destination.clone() };
                (State::AwaitVg, act)
            },
        }
    }
}

/// How far along a run a state stands. Steps only raise it, so the
/// order of the phases is the order of the actions in every run.
pub open spec fn phase(s: State) -> int {
    match s {
        State::FetchCache { kind } => if kind is Efiboot {
            0
        } else {
            2
        },
        State::FetchDownload { kind } => if kind is Efiboot {
            1
        } else {
            3
        },
        State::AwaitVg => 4,
        State::AwaitMounts { .. } => 5,
        State::AwaitLvs { .. } => 6,
        State::AwaitCreate { .. } => 7,
        State::AwaitRename { .. } => 7,
        State::AwaitBootList { .. } => 8,
        State::AwaitRemovals { .. } => 9,
        State::AwaitCoreCopy { .. } => 10,
        State::AwaitStage => 11,
        State::AwaitSync => 12,
        State::AwaitCommit => 13,
        State::AwaitCleanup => 14,
        State::Done => 15,
        State::Failed { .. } => 16,
    }
}

/// Law: a run only moves forward. From any working state, whatever the
/// event, the phase strictly grows; no step can return to an earlier
/// stage of the sequence.
pub proof fn lemma_run_advances(pre: Updater, event: Event, post: Updater, action: Action)
    requires
        step_rel(pre, event, post, action),
        !(pre.state is Done),
        !(pre.state matches State::Failed { .. }),
    ensures
        phase(post.state) > phase(pre.state),
{
}

/// Law: cache files that already validate for the target version are
/// reused. The step that answers the cache read with a validating pair
/// issues no download, and the run neither fails nor enters the
/// download stage.
pub proof fn lemma_valid_cache_reused(pre: Updater, event: Event, post: Updater, action: Action)
    requires
        step_rel(pre, event, post, action),
        pre.state matches State::FetchCache { .. },
        event matches Event::CacheFiles { data, sig } && (data is Some && sig is Some)
            && valid_artifact(pre.sys.pubkey@, data->Some_0@, sig->Some_0@, pre.target@),
    ensures
        !(action matches Action::DownloadPair { .. }),
        !(post.state matches State::FetchDownload { .. }),
        !(post.state matches State::Failed { .. }),
{
}

/// Law: boot entries are removed only right after the boot directory
/// was listed — after both artifacts validated and the volume was
/// chosen, and before anything writes the core volume.
pub proof fn lemma_removal_precedes_write(pre: Updater, event: Event, post: Updater, action: Action)
    requires
        step_rel(pre, event, post, action),
        action matches Action::RemoveBootEntries { .. },
    ensures
        pre.state matches State::AwaitBootList { .. },
        post.state matches State::AwaitRemovals { .. },
{
}

/// Law: the core volume is written only once the stale boot entries
/// are gone.
pub proof fn lemma_write_follows_removals(pre: Updater, event: Event, post: Updater, action: Action)
    requires
        step_rel(pre, event, post, action),
        action matches Action::WriteCore { .. },
    ensures
        pre.state matches State::AwaitRemovals { .. },
        post.state matches State::AwaitCoreCopy { .. },
{
}

/// Law: the commit — the rename that makes the new boot entry visible
/// — is issued only after the core write, the staging copy and the
/// storage flush, and it moves the staged name onto a distinct final
/// name, so the entry appears atomically or not at all.
pub proof fn lemma_commit_is_last(pre: Updater, event: Event, post: Updater, action: Action)
    requires
        step_rel(pre, event, post, action),
        action matches Action::CommitBoot { .. },
    ensures
        pre.state is AwaitSync,
        post.state is AwaitCommit,
        action matches Action::CommitBoot { from, to } && from@ == to@ + ".new"@ && from@ != to@,
{
    boot::lemma_staged_name_differs(efi_dest(pre));
}

/// Law: the running version's boot entry is never among the removals
/// a step orders, whatever the boot directory listing held.
pub proof fn lemma_removals_keep_current(pre: Updater, event: Event, post: Updater, action: Action)
    requires
        step_rel(pre, event, post, action),
    ensures
        action matches Action::RemoveBootEntries { directory, names } ==> forall|i: int|
            0 <= i < names@.len() ==> names@[i]@ != entry_name_seq(
                pre.sys.os_name@,
                pre.sys.version@,
            ),
{
    match action {
        Action::RemoveBootEntries { directory: _, names } => {
            match pre.state {
                State::AwaitBootList { lv: _ } => {
                    match event {
                        Event::BootEntries { names: orig } => {
                            let current = entry_name_seq(pre.sys.os_name@, pre.sys.version@);
                            assert(names@ == stale_seq(orig@, current));
                            assert forall|i: int| 0 <= i < names@.len() implies names@[i]@
                                != current by {
                                boot::lemma_current_entry_kept(orig@, current, i);
                            }
                        },
                        _ => {},
                    }
                },
                _ => {},
            }
        },
        _ => {},
    }
}

/// A run of the machine: each event answers the state before it, and
/// each step yields the next state and the action taken after it.
pub open spec fn is_run(states: Seq<Updater>, events: Seq<Event>, actions: Seq<Action>) -> bool {
    &&& states.len() == events.len() + 1
    &&& actions.len() == events.len()
    &&& forall|i: int|
        0 <= i < events.len() ==> step_rel(states[i], events[i], states[i + 1], #[trigger] actions[i])
}

/// Along a run the phase never falls back.
pub proof fn lemma_phases_nondecreasing(
    states: Seq<Updater>,
    events: Seq<Event>,
    actions: Seq<Action>,
    i: int,
    j: int,
)
    requires
        is_run(states, events, actions),
        0 <= i <= j < states.len(),
    ensures
        phase(states[i].state) <= phase(states[j].state),
    decreases j - i,
{
    if i < j {
        assert(step_rel(states[i], events[i], states[i + 1], actions[i]));
        if !(states[i].state is Done) && !(states[i].state matches State::Failed { .. }) {
            lemma_run_advances(states[i], events[i], states[i + 1], actions[i]);
        }
        lemma_phases_nondecreasing(states, events, actions, i + 1, j);
    }
}

/// Law: in every run of the machine, every removal of stale boot
/// entries comes strictly before every write of the core volume. A
/// crash during the write therefore finds no boot entry that could
/// select the half-written image.
pub proof fn lemma_removals_precede_writes_in_run(
    states: Seq<Updater>,
    events: Seq<Event>,
    actions: Seq<Action>,
    i: int,
    j: int,
)
    requires
        is_run(states, events, actions),
        0 <= i < actions.len(),
        0 <= j < actions.len(),
        actions[i] matches Action::RemoveBootEntries { .. },
        actions[j] matches Action::WriteCore { .. },
    ensures
        i < j,
{
    assert(step_rel(states[i], events[i], states[i + 1], actions[i]));
    assert(step_rel(states[j], events[j], states[j + 1], actions[j]));
    lemma_removal_precedes_write(states[i], events[i], states[i + 1], actions[i]);
    lemma_write_follows_removals(states[j], events[j], states[j + 1], actions[j]);
    if j <= i {
        lemma_phases_nondecreasing(states, events, actions, j, i);
        assert(false);
    }
}

/// Law: in every run of the machine, every write of the core volume
/// comes strictly before the commit of the new boot entry. The entry
/// for the target version can only appear once its image is written.
pub proof fn lemma_writes_precede_commit_in_run(
    states: Seq<Updater>,
    events: Seq<Event>,
    actions: Seq<Action>,
    i: int,
    j: int,
)
    requires
        is_run(states, events, actions),
        0 <= i < actions.len(),
        0 <= j < actions.len(),
        actions[i] matches Action::WriteCore { .. },
        actions[j] matches Action::CommitBoot { .. },
    ensures
        i < j,
{
    assert(step_rel(states[i], events[i], states[i + 1], actions[i]));
    assert(step_rel(states[j], events[j], states[j + 1], actions[j]));
    lemma_write_follows_removals(states[i], events[i], states[i + 1], actions[i]);
    lemma_commit_is_last(states[j], events[j], states[j + 1], actions[j]);
    if j <= i {
        lemma_phases_nondecreasing(states, events, actions, j, i);
        assert(false);
    }
}

impl System {
    /// Begin the update sequence toward `version`: fetch and validate
    /// both artifacts, pick the destination volume, clear stale boot
    /// entries, write the core image, publish the boot entry, clean
    /// up. The returned machine drives it; the first action reads the
    /// boot binary's cache pair.
    pub fn update(self, remote: Remote, version: Version) -> (r: (Updater, Action))
        ensures
            r.0.sys == self,
            r.0.dist_url@ == remote.dist_url@,
            r.0.target == version,
            r.0.state matches State::FetchCache { kind } && kind is Efiboot,
            read_cache_action(r.0, Kind::Efiboot, r.1),
    {
        Updater::start(self, remote, version)
    }
}

} // verus!
