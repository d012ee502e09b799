use std::io::Cursor;

use updater::config::{configure, Remote, TomlConfig, TomlCore, TomlEfiboot, TomlRemote};
use updater::errors::Error;
use updater::lvm::Vg;
use updater::machine::{Action, Event, State, Updater};
use updater::mounts::MountEntry;
use updater::system::System;
use updater::version::Version;

struct Signer {
    pk: String,
    sk: minisign::SecretKey,
}

impl Signer {
    fn new() -> Signer {
        let keypair = minisign::KeyPair::generate_unencrypted_keypair().unwrap();
        Signer {
            pk: keypair.pk.to_base64(),
            sk: keypair.sk,
        }
    }

    fn sign(&self, data: &[u8], comment: &str) -> String {
        minisign::sign(None, &self.sk, Cursor::new(data), Some(comment), None)
            .unwrap()
            .into_string()
    }
}

fn test_system(pk: &str) -> System {
    let (sys, _) = configure(
        TomlConfig {
            os_name: String::from("clipos"),
            core: TomlCore {
                destination: String::from("main"),
                size: String::from("4G"),
            },
            efiboot: TomlEfiboot {
                destination: String::from("/mnt/efiboot/EFI/Linux"),
            },
        },
        TomlRemote {
            update_url: String::from("https://update.example"),
            dist_url: String::from("https://dist.example"),
        },
        "1.0.0",
        String::from(pk),
        String::from("/var/lib/updater"),
    )
    .unwrap();
    sys
}

fn remote() -> Remote {
    Remote {
        update_url: String::from("https://update.example"),
        dist_url: String::from("https://dist.example"),
    }
}

fn lvs_report(names: &[&str]) -> Vec<u8> {
    let rows: Vec<String> = names
        .iter()
        .map(|n| format!("{{\"lv_name\":\"{}\",\"vg_name\":\"main\"}}", n))
        .collect();
    format!("{{\"report\":[{{\"lv\":[{}]}}]}}", rows.join(",")).into_bytes()
}

fn running_mounts() -> Vec<MountEntry> {
    vec![MountEntry {
        source: String::from("/dev/mapper/verity_core_1.0.0_1.0.0"),
        mount_point: String::from("/"),
    }]
}

/// Scenario: running 1.0.0 with one stale inactive volume `core_0.9.0`;
/// the whole sequence runs through rename, write, publish and cleanup.
#[test]
fn end_to_end_reuses_and_publishes() {
    let signer = Signer::new();
    let target = Version::new(1, 1, 0);
    let efiboot_data = b"efiboot binary".to_vec();
    let core_data = b"core image".to_vec();
    let efiboot_sig = signer.sign(&efiboot_data, "1.1.0");
    let core_sig = signer.sign(&core_data, "1.1.0");

    let sys = test_system(&signer.pk);
    let (u, a) = sys.update(remote(), target);

    // Cached boot binary is already valid: reused, no download.
    match &a {
        Action::ReadCache { file, sig } => {
            assert_eq!(file, "/var/lib/updater/clipos-efiboot");
            assert_eq!(sig, "/var/lib/updater/clipos-efiboot.sig");
        }
        other => panic!("expected a cache read, got {:?}", other),
    }
    let (u, a) = u.step(Event::CacheFiles {
        data: Some(efiboot_data.clone()),
        sig: Some(efiboot_sig.clone()),
    });
    match &a {
        Action::ReadCache { file, .. } => assert_eq!(file, "/var/lib/updater/clipos-core"),
        other => panic!("expected a cache read, got {:?}", other),
    }

    // Core cache is absent: downloaded fresh, then validated.
    let (u, a) = u.step(Event::CacheFiles {
        data: None,
        sig: None,
    });
    match &a {
        Action::DownloadPair {
            file_url,
            file_dst,
            sig_url,
            sig_dst,
        } => {
            assert_eq!(file_url, "https://dist.example/1.1.0/clipos-core");
            assert_eq!(file_dst, "/var/lib/updater/clipos-core");
            assert_eq!(sig_url, "https://dist.example/1.1.0/clipos-core.sig");
            assert_eq!(sig_dst, "/var/lib/updater/clipos-core.sig");
        }
        other => panic!("expected a download, got {:?}", other),
    }
    let (u, a) = u.step(Event::Downloaded {
        data: core_data.clone(),
        sig: core_sig.clone(),
    });
    match &a {
        Action::FindVg { name } => assert_eq!(name, "main"),
        other => panic!("expected a group lookup, got {:?}", other),
    }

    let (u, a) = u.step(Event::VgFound {
        vg: Some(Vg {
            name: String::from("main"),
        }),
    });
    assert!(matches!(a, Action::ReadMounts));
    let (u, a) = u.step(Event::MountTable {
        entries: running_mounts(),
    });
    match &a {
        Action::ListVolumes { vg_name } => assert_eq!(vg_name, "main"),
        other => panic!("expected a volume listing, got {:?}", other),
    }

    // Selection finishes first: the stale volume is renamed to the
    // target name before anything else is touched.
    let vg = Vg {
        name: String::from("main"),
    };
    let lvs = vg
        .list_lv(&lvs_report(&["core_state", "core_1.0.0", "core_0.9.0"]))
        .unwrap();
    let (u, a) = u.step(Event::LvListing { lvs });
    match &a {
        Action::RenameVolume { vg_name, from, to } => {
            assert_eq!(vg_name, "main");
            assert_eq!(from, "core_0.9.0");
            assert_eq!(to, "core_1.1.0");
        }
        other => panic!("expected a rename, got {:?}", other),
    }
    let (u, a) = u.step(Event::Ack);
    match &a {
        Action::ListBootEntries { directory } => assert_eq!(directory, "/mnt/efiboot/EFI/Linux"),
        other => panic!("expected a boot listing, got {:?}", other),
    }

    // Stale entries go next; the running version's entry is kept.
    let (u, a) = u.step(Event::BootEntries {
        names: vec![
            String::from("clipos-0.8.0.efi"),
            String::from("clipos-1.0.0.efi"),
        ],
    });
    match &a {
        Action::RemoveBootEntries { directory, names } => {
            assert_eq!(directory, "/mnt/efiboot/EFI/Linux");
            assert_eq!(names, &vec![String::from("clipos-0.8.0.efi")]);
        }
        other => panic!("expected removals, got {:?}", other),
    }

    // Only then is the renamed volume overwritten.
    let (u, a) = u.step(Event::Ack);
    match &a {
        Action::WriteCore { src, dst } => {
            assert_eq!(src, "/var/lib/updater/clipos-core");
            assert_eq!(dst, "/dev/main/core_1.1.0");
        }
        other => panic!("expected the core write, got {:?}", other),
    }

    // Publish: stage under .new, flush, then the atomic rename.
    let (u, a) = u.step(Event::Ack);
    match &a {
        Action::StageBoot { src, dst } => {
            assert_eq!(src, "/var/lib/updater/clipos-efiboot");
            assert_eq!(dst, "/mnt/efiboot/EFI/Linux/clipos-1.1.0.efi.new");
        }
        other => panic!("expected the staging copy, got {:?}", other),
    }
    let (u, a) = u.step(Event::Ack);
    assert!(matches!(a, Action::SyncDisks));
    let (u, a) = u.step(Event::Ack);
    match &a {
        Action::CommitBoot { from, to } => {
            assert_eq!(from, "/mnt/efiboot/EFI/Linux/clipos-1.1.0.efi.new");
            assert_eq!(to, "/mnt/efiboot/EFI/Linux/clipos-1.1.0.efi");
        }
        other => panic!("expected the commit, got {:?}", other),
    }

    // Cleanup of all four cache files, then done.
    let (u, a) = u.step(Event::Ack);
    match &a {
        Action::RemoveCacheFiles { files } => {
            assert_eq!(
                files,
                &vec![
                    String::from("/var/lib/updater/clipos-core"),
                    String::from("/var/lib/updater/clipos-core.sig"),
                    String::from("/var/lib/updater/clipos-efiboot"),
                    String::from("/var/lib/updater/clipos-efiboot.sig"),
                ]
            );
        }
        other => panic!("expected the cache cleanup, got {:?}", other),
    }
    let (u, a) = u.step(Event::Ack);
    assert!(matches!(a, Action::Stop));
    assert!(matches!(u.state, State::Done));
}

/// Scenario: no volume matches `core_*` beside the active one, so a
/// fresh volume is created with the configured size.
#[test]
fn no_candidate_creates_fresh_volume() {
    let signer = Signer::new();
    let target = Version::new(1, 1, 0);
    let efiboot_data = b"efiboot binary".to_vec();
    let core_data = b"core image".to_vec();
    let efiboot_sig = signer.sign(&efiboot_data, "1.1.0");
    let core_sig = signer.sign(&core_data, "1.1.0");

    let sys = test_system(&signer.pk);
    let (u, _) = sys.update(remote(), target);
    let (u, _) = u.step(Event::CacheFiles {
        data: Some(efiboot_data),
        sig: Some(efiboot_sig),
    });
    let (u, _) = u.step(Event::CacheFiles {
        data: Some(core_data),
        sig: Some(core_sig),
    });
    let (u, _) = u.step(Event::VgFound {
        vg: Some(Vg {
            name: String::from("main"),
        }),
    });
    let (u, _) = u.step(Event::MountTable {
        entries: running_mounts(),
    });
    let vg = Vg {
        name: String::from("main"),
    };
    let lvs = vg
        .list_lv(&lvs_report(&["core_1.0.0", "core_state", "core_swap"]))
        .unwrap();
    let (u, a) = u.step(Event::LvListing { lvs });
    match &a {
        Action::CreateVolume {
            vg_name,
            lv_name,
            size,
        } => {
            assert_eq!(vg_name, "main");
            assert_eq!(lv_name, "core_1.1.0");
            assert_eq!(size, "4G");
        }
        other => panic!("expected a create, got {:?}", other),
    }
    // The created volume already carries the target name: boot-entry
    // clearing follows at once, then the core write.
    let (u, a) = u.step(Event::Ack);
    assert!(matches!(a, Action::ListBootEntries { .. }));
    let (u, a) = u.step(Event::BootEntries {
        names: vec![String::from("clipos-1.0.0.efi")],
    });
    match &a {
        Action::RemoveBootEntries { names, .. } => assert!(names.is_empty()),
        other => panic!("expected removals, got {:?}", other),
    }
    let (_, a) = u.step(Event::Ack);
    match &a {
        Action::WriteCore { dst, .. } => assert_eq!(dst, "/dev/main/core_1.1.0"),
        other => panic!("expected the core write, got {:?}", other),
    }
}

/// A crash between the staging copy and the commit leaves no entry
/// under the final name: replaying the actions against a simulated
/// directory shows the new entry absent until the commit, and the
/// current entry present throughout.
#[test]
fn crash_before_commit_leaves_no_new_entry() {
    let signer = Signer::new();
    let target = Version::new(1, 1, 0);
    let efiboot_data = b"efiboot binary".to_vec();
    let core_data = b"core image".to_vec();
    let efiboot_sig = signer.sign(&efiboot_data, "1.1.0");
    let core_sig = signer.sign(&core_data, "1.1.0");

    // The simulated boot directory.
    let mut dir: Vec<String> = vec![
        String::from("clipos-0.9.0.efi"),
        String::from("clipos-1.0.0.efi"),
    ];

    let sys = test_system(&signer.pk);
    let (u, _) = sys.update(remote(), target);
    let (u, _) = u.step(Event::CacheFiles {
        data: Some(efiboot_data),
        sig: Some(efiboot_sig),
    });
    let (u, _) = u.step(Event::CacheFiles {
        data: Some(core_data),
        sig: Some(core_sig),
    });
    let (u, _) = u.step(Event::VgFound {
        vg: Some(Vg {
            name: String::from("main"),
        }),
    });
    let (u, _) = u.step(Event::MountTable {
        entries: running_mounts(),
    });
    let vg = Vg {
        name: String::from("main"),
    };
    let lvs = vg.list_lv(&lvs_report(&["core_0.9.0"])).unwrap();
    let (u, a) = u.step(Event::LvListing { lvs });
    assert!(matches!(a, Action::RenameVolume { .. }));
    let (u, _) = u.step(Event::Ack); // rename done, boot listing ordered
    let (u, a) = u.step(Event::BootEntries {
        names: dir.clone(),
    });
    match &a {
        Action::RemoveBootEntries { names, .. } => {
            assert_eq!(names, &vec![String::from("clipos-0.9.0.efi")]);
            dir.retain(|e| !names.contains(e));
        }
        other => panic!("expected removals, got {:?}", other),
    }
    let (u, _) = u.step(Event::Ack); // core write ordered
    let (_, a) = u.step(Event::Ack); // staging copy ordered
    match &a {
        Action::StageBoot { dst, .. } => dir.push(dst.rsplit('/').next().unwrap().to_string()),
        other => panic!("expected the staging copy, got {:?}", other),
    }

    // Crash here: the process dies before the commit rename runs.
    assert!(dir.contains(&String::from("clipos-1.0.0.efi")));
    assert!(!dir.contains(&String::from("clipos-1.1.0.efi")));
    assert!(dir.contains(&String::from("clipos-1.1.0.efi.new")));
}

/// A failure reported in a working state ends the run; one reported
/// during cleanup is ignored, since the update is already committed.
#[test]
fn failures_end_or_are_ignored_by_stage() {
    let signer = Signer::new();
    let sys = test_system(&signer.pk);
    let (u, _) = sys.update(remote(), Version::new(1, 1, 0));
    let (u, a) = u.step(Event::Fail {
        error: Error::Http {
            url: String::from("https://dist.example/1.1.0/clipos-efiboot"),
        },
    });
    assert!(matches!(a, Action::Stop));
    match &u.state {
        State::Failed {
            error: Error::Http { url },
        } => assert_eq!(url, "https://dist.example/1.1.0/clipos-efiboot"),
        other => panic!("expected a failed run, got {:?}", other),
    }

    // A missing volume group is fatal with its own error.
    let sys = test_system(&signer.pk);
    let (u, _) = sys.update(remote(), Version::new(1, 1, 0));
    let efiboot_data = b"efiboot binary".to_vec();
    let efiboot_sig = signer.sign(&efiboot_data, "1.1.0");
    let core_data = b"core image".to_vec();
    let core_sig = signer.sign(&core_data, "1.1.0");
    let (u, _) = u.step(Event::CacheFiles {
        data: Some(efiboot_data),
        sig: Some(efiboot_sig),
    });
    let (u, _) = u.step(Event::CacheFiles {
        data: Some(core_data),
        sig: Some(core_sig),
    });
    let (u, a) = u.step(Event::VgFound { vg: None });
    assert!(matches!(a, Action::Stop));
    assert!(matches!(
        u.state,
        State::Failed {
            error: Error::VgNotFound { .. }
        }
    ));
}

/// An invalid download is fatal with the verifier's exact error.
#[test]
fn bad_download_fails_with_verify_error() {
    let signer = Signer::new();
    let sys = test_system(&signer.pk);
    let (u, _) = sys.update(remote(), Version::new(1, 1, 0));
    let (u, a) = u.step(Event::CacheFiles {
        data: None,
        sig: None,
    });
    assert!(matches!(a, Action::DownloadPair { .. }));
    let mut data = b"efiboot binary".to_vec();
    let sig = signer.sign(&data, "1.1.0");
    data[0] ^= 0xff;
    let (u, a) = u.step(Event::Downloaded { data, sig });
    assert!(matches!(a, Action::Stop));
    assert!(matches!(
        u.state,
        State::Failed {
            error: Error::InvalidSignature
        }
    ));
}

/// A wrongly versioned artifact in the cache is not reused: the run
/// falls back to a fresh download.
#[test]
fn stale_cache_falls_back_to_download() {
    let signer = Signer::new();
    let sys = test_system(&signer.pk);
    let (u, _) = sys.update(remote(), Version::new(1, 1, 0));
    let data = b"efiboot binary".to_vec();
    let old_sig = signer.sign(&data, "1.0.0");
    let (u, a) = u.step(Event::CacheFiles {
        data: Some(data),
        sig: Some(old_sig),
    });
    assert!(matches!(a, Action::DownloadPair { .. }));
    assert!(matches!(u.state, State::FetchDownload { .. }));
}

/// An event that does not answer the pending action is refused.
#[test]
fn mismatched_event_is_refused() {
    let signer = Signer::new();
    let sys = test_system(&signer.pk);
    let (u, _) = sys.update(remote(), Version::new(1, 1, 0));
    let (u, a) = u.step(Event::Ack);
    assert!(matches!(a, Action::Stop));
    assert!(matches!(
        u.state,
        State::Failed {
            error: Error::UnexpectedEvent
        }
    ));
    let _ = Updater::start(
        test_system(&signer.pk),
        remote(),
        Version::new(1, 1, 0),
    );
}
