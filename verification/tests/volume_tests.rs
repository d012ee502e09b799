use updater::lvm::{Error as LvmError, Vg};
use updater::mounts::{current_mounts, MountEntry};
use updater::select::{lv_is_candidate, select, Selection};
use updater::system::{Kind, Package};
use updater::version::Version;

fn lvs_report(names: &[&str]) -> Vec<u8> {
    let rows: Vec<String> = names
        .iter()
        .map(|n| format!("{{\"lv_name\":\"{}\",\"vg_name\":\"main\"}}", n))
        .collect();
    format!("{{\"report\":[{{\"lv\":[{}]}}]}}", rows.join(",")).into_bytes()
}

fn vgs_report(names: &[&str]) -> Vec<u8> {
    let rows: Vec<String> = names
        .iter()
        .map(|n| format!("{{\"vg_name\":\"{}\"}}", n))
        .collect();
    format!("{{\"report\":[{{\"vg\":[{}]}}]}}", rows.join(",")).into_bytes()
}

fn root_mounts(source: &str) -> Vec<MountEntry> {
    vec![
        MountEntry {
            source: String::from("tmpfs"),
            mount_point: String::from("/tmp"),
        },
        MountEntry {
            source: String::from(source),
            mount_point: String::from("/"),
        },
    ]
}

fn core_package() -> Package {
    Package::new(Kind::Core, "main", Some(String::from("4G")))
}

#[test]
fn vg_report_reading() {
    let vgs = Vg::vgs(&vgs_report(&["main", "other"])).unwrap();
    assert_eq!(vgs.len(), 2);
    assert_eq!(vgs[0].name, "main");
    let found = Vg::find_vg("other", &vgs_report(&["main", "other"])).unwrap();
    assert_eq!(found.unwrap().name, "other");
    let missing = Vg::find_vg("gone", &vgs_report(&["main"])).unwrap();
    assert!(missing.is_none());
    match Vg::vgs(b"not json") {
        Err(LvmError::InvalidReport { command }) => assert_eq!(command, "vgs"),
        other => panic!("expected an invalid report, got {:?}", other),
    }
}

#[test]
fn lv_report_reading() {
    let vg = Vg {
        name: String::from("main"),
    };
    let lvs = vg
        .list_lv(&lvs_report(&["core_1.0.0", "core_state"]))
        .unwrap();
    assert_eq!(lvs.len(), 2);
    assert_eq!(lvs[0].name(), "core_1.0.0");
    assert_eq!(lvs[0].path(), "/dev/main/core_1.0.0");
    let found = vg
        .find_lv("core_state", &lvs_report(&["core_1.0.0", "core_state"]))
        .unwrap();
    assert_eq!(found.unwrap().name(), "core_state");
    assert!(vg.find_lv("core_2.0.0", &lvs_report(&["core_1.0.0"])).unwrap().is_none());
}

#[test]
fn mount_table_reading() {
    let content =
        b"1 0 8:1 / / rw,relatime shared:1 - ext4 /dev/mapper/verity_core_1.0.0_1.0.0 rw\n\
          2 1 0:25 / /tmp rw,nosuid - tmpfs tmpfs rw\n";
    let mounts = current_mounts(content).unwrap();
    assert_eq!(mounts.len(), 2);
    assert_eq!(mounts[0].mount_point, "/");
    assert_eq!(mounts[0].source, "/dev/mapper/verity_core_1.0.0_1.0.0");
}

#[test]
fn undecodable_mount_table_is_fatal() {
    let r = current_mounts(b"not a mount table at all\n");
    assert_eq!(r.err(), Some(updater::errors::Error::Mountinfo));
}

#[test]
fn reserved_suffixes_are_never_candidates() {
    let vg = Vg {
        name: String::from("main"),
    };
    let lvs = vg
        .list_lv(&lvs_report(&["core_state", "core_swap"]))
        .unwrap();
    let running = Version::new(1, 0, 0);
    let mounts = root_mounts("/dev/sda1");
    for lv in &lvs {
        assert!(!lv_is_candidate(lv, "core", &running, &mounts));
    }
    let newer = Version::new(0, 1, 0);
    for lv in &lvs {
        assert!(!lv_is_candidate(lv, "core", &newer, &mounts));
    }
}

#[test]
fn running_version_is_never_a_candidate() {
    let vg = Vg {
        name: String::from("main"),
    };
    let lvs = vg.list_lv(&lvs_report(&["core_1.0.0"])).unwrap();
    let mounts = root_mounts("/dev/sda1");
    assert!(!lv_is_candidate(&lvs[0], "core", &Version::new(1, 0, 0), &mounts));
    assert!(lv_is_candidate(&lvs[0], "core", &Version::new(1, 1, 0), &mounts));
}

#[test]
fn root_mounted_volume_is_never_a_candidate() {
    let vg = Vg {
        name: String::from("main"),
    };
    let lvs = vg.list_lv(&lvs_report(&["core_0.9.0"])).unwrap();
    let running = Version::new(1, 0, 0);
    let busy = root_mounts("/dev/mapper/verity_core_0.9.0_0.9.0");
    assert!(!lv_is_candidate(&lvs[0], "core", &running, &busy));
    let free = root_mounts("/dev/mapper/verity_core_1.0.0_1.0.0");
    assert!(lv_is_candidate(&lvs[0], "core", &running, &free));
}

#[test]
fn select_reuses_first_stale_volume() {
    let vg = Vg {
        name: String::from("main"),
    };
    let lvs = vg
        .list_lv(&lvs_report(&["core_state", "core_1.0.0", "core_0.9.0"]))
        .unwrap();
    let running = Version::new(1, 0, 0);
    let target = Version::new(1, 1, 0);
    let mounts = root_mounts("/dev/mapper/verity_core_1.0.0_1.0.0");
    match select(&core_package(), &lvs, &running, &target, &mounts) {
        Selection::Reuse { lv, rename_needed } => {
            assert_eq!(lv.name(), "core_0.9.0");
            assert!(rename_needed);
        }
        other => panic!("expected a reuse, got {:?}", other),
    }
}

#[test]
fn select_skips_rename_when_already_named() {
    let vg = Vg {
        name: String::from("main"),
    };
    let lvs = vg.list_lv(&lvs_report(&["core_1.1.0"])).unwrap();
    let running = Version::new(1, 0, 0);
    let target = Version::new(1, 1, 0);
    let mounts = root_mounts("/dev/mapper/verity_core_1.0.0_1.0.0");
    match select(&core_package(), &lvs, &running, &target, &mounts) {
        Selection::Reuse { lv, rename_needed } => {
            assert_eq!(lv.name(), "core_1.1.0");
            assert!(!rename_needed);
        }
        other => panic!("expected a reuse, got {:?}", other),
    }
}

#[test]
fn select_creates_with_configured_size() {
    let vg = Vg {
        name: String::from("main"),
    };
    let lvs = vg
        .list_lv(&lvs_report(&["core_1.0.0", "core_state"]))
        .unwrap();
    let running = Version::new(1, 0, 0);
    let target = Version::new(1, 1, 0);
    let mounts = root_mounts("/dev/mapper/verity_core_1.0.0_1.0.0");
    match select(&core_package(), &lvs, &running, &target, &mounts) {
        Selection::Create { name, size } => {
            assert_eq!(name, "core_1.1.0");
            assert_eq!(size, "4G");
        }
        other => panic!("expected a create, got {:?}", other),
    }
}

#[test]
fn select_creates_with_default_size() {
    let pkg = Package::new(Kind::Core, "main", None);
    let lvs: Vec<updater::lvm::Lv> = Vec::new();
    let mounts = root_mounts("/dev/sda1");
    match select(&pkg, &lvs, &Version::new(1, 0, 0), &Version::new(1, 1, 0), &mounts) {
        Selection::Create { name, size } => {
            assert_eq!(name, "core_1.1.0");
            assert_eq!(size, "500M");
        }
        other => panic!("expected a create, got {:?}", other),
    }
}

#[test]
fn suffix_is_everything_after_the_first_underscore() {
    let vg = Vg {
        name: String::from("main"),
    };
    // The whole suffix must parse as a version: a trailing extra
    // segment makes the name no candidate, even though its first
    // segment alone would parse.
    let lvs = vg.list_lv(&lvs_report(&["core_1.2.3_x"])).unwrap();
    let running = Version::new(1, 0, 0);
    let mounts = root_mounts("/dev/sda1");
    assert!(!lv_is_candidate(&lvs[0], "core", &running, &mounts));
    match select(&core_package(), &lvs, &running, &Version::new(1, 1, 0), &mounts) {
        Selection::Create { name, .. } => assert_eq!(name, "core_1.1.0"),
        other => panic!("expected a create, got {:?}", other),
    }
}

#[test]
fn unparsable_suffix_is_skipped_not_fatal() {
    let vg = Vg {
        name: String::from("main"),
    };
    let lvs = vg
        .list_lv(&lvs_report(&["core_junk", "core_0.9.0"]))
        .unwrap();
    let running = Version::new(1, 0, 0);
    let target = Version::new(1, 1, 0);
    let mounts = root_mounts("/dev/sda1");
    match select(&core_package(), &lvs, &running, &target, &mounts) {
        Selection::Reuse { lv, .. } => assert_eq!(lv.name(), "core_0.9.0"),
        other => panic!("expected a reuse, got {:?}", other),
    }
}

#[test]
fn rename_and_create_values() {
    let vg = Vg {
        name: String::from("main"),
    };
    let lv = vg.create_lv("core_1.1.0", "4G");
    assert_eq!(lv.name(), "core_1.1.0");
    assert_eq!(lv.path(), "/dev/main/core_1.1.0");
    let renamed = lv.rename_to(String::from("core_1.2.0"));
    assert_eq!(renamed.name(), "core_1.2.0");
    assert_eq!(renamed.path(), "/dev/main/core_1.2.0");
}
