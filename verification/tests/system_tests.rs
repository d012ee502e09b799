use updater::boot::{entry_name, stale_entries};
use updater::config::{configure, Remote, TomlConfig, TomlCore, TomlEfiboot, TomlRemote};
use updater::errors::Error;
use updater::system::{Kind, Package, System};
use updater::version::Version;

fn toml_config() -> TomlConfig {
    TomlConfig {
        os_name: String::from("clipos"),
        core: TomlCore {
            destination: String::from("main"),
            size: String::from("4G"),
        },
        efiboot: TomlEfiboot {
            destination: String::from("/mnt/efiboot/EFI/Linux"),
        },
    }
}

fn toml_remote() -> TomlRemote {
    TomlRemote {
        update_url: String::from("https://update.example"),
        dist_url: String::from("https://dist.example"),
    }
}

fn test_system() -> System {
    let (sys, _) = configure(
        toml_config(),
        toml_remote(),
        "1.0.0",
        String::from("KEY"),
        String::from("/var/lib/updater"),
    )
    .unwrap();
    sys
}

#[test]
fn package_names_follow_kind() {
    let core = Package::new(Kind::Core, "main", Some(String::from("4G")));
    assert_eq!(core.name, "core");
    assert_eq!(core.destination, "main");
    let efiboot = Package::new(Kind::Efiboot, "/mnt/efiboot", None);
    assert_eq!(efiboot.name, "efiboot");
    assert!(efiboot.size.is_none());
}

#[test]
fn configure_strips_build_metadata() {
    let (sys, rem) = configure(
        toml_config(),
        toml_remote(),
        "1.0.0-rc.2+instrumented",
        String::from("KEY"),
        String::from("/var/lib/updater"),
    )
    .unwrap();
    assert_eq!(sys.version, Version::parse("1.0.0-rc.2").unwrap());
    assert_eq!(sys.os_name, "clipos");
    assert_eq!(rem.dist_url, "https://dist.example");
}

#[test]
fn configure_rejects_bad_version() {
    let r = configure(
        toml_config(),
        toml_remote(),
        "release-7",
        String::from("KEY"),
        String::from("/var/lib/updater"),
    );
    assert_eq!(
        r.err().unwrap(),
        Error::InvalidVersion {
            version: String::from("release-7")
        }
    );
}

#[test]
fn cache_and_url_paths() {
    let sys = test_system();
    let v = Version::new(1, 1, 0);
    assert_eq!(sys.cache(&sys.core), "/var/lib/updater/clipos-core");
    assert_eq!(sys.cache_sig(&sys.core), "/var/lib/updater/clipos-core.sig");
    assert_eq!(sys.cache(&sys.efiboot), "/var/lib/updater/clipos-efiboot");
    assert_eq!(
        sys.url(&sys.core, "https://dist.example", &v),
        "https://dist.example/1.1.0/clipos-core"
    );
    assert_eq!(
        sys.url_sig(&sys.efiboot, "https://dist.example", &v),
        "https://dist.example/1.1.0/clipos-efiboot.sig"
    );
}

#[test]
fn destinations_by_kind() {
    let sys = test_system();
    let v = Version::new(1, 1, 0);
    assert_eq!(sys.dest(&sys.core, &v), "/dev/main/core_1.1.0");
    assert_eq!(
        sys.dest(&sys.efiboot, &v),
        "/mnt/efiboot/EFI/Linux/clipos-1.1.0.efi"
    );
}

#[test]
fn check_update_orders_versions() {
    let sys = test_system();
    let rem = Remote {
        update_url: String::from("https://update.example"),
        dist_url: String::from("https://dist.example"),
    };
    assert_eq!(
        rem.check_url(&sys.os_name),
        "https://update.example/clipos/version"
    );
    let newer = rem.check_update(&sys, "version = \"1.1.0\"\n").unwrap();
    assert_eq!(newer, Some(Version::new(1, 1, 0)));
    let same = rem.check_update(&sys, "version = \"1.0.0\"\n").unwrap();
    assert_eq!(same, None);
    let older = rem.check_update(&sys, "version = \"0.9.9\"\n").unwrap();
    assert_eq!(older, None);
}

#[test]
fn check_update_rejects_bad_answers() {
    let sys = test_system();
    let rem = Remote {
        update_url: String::from("https://update.example"),
        dist_url: String::from("https://dist.example"),
    };
    assert_eq!(
        rem.check_update(&sys, "not toml at all ["),
        Err(Error::InvalidRemoteToml)
    );
    assert_eq!(
        rem.check_update(&sys, "version = \"seven\"\n"),
        Err(Error::InvalidVersion {
            version: String::from("seven")
        })
    );
}

#[test]
fn current_entry_is_kept_by_stale_filter() {
    let current = entry_name("clipos", &Version::new(1, 0, 0));
    assert_eq!(current, "clipos-1.0.0.efi");
    let listing = vec![
        String::from("clipos-0.8.0.efi"),
        String::from("clipos-1.0.0.efi"),
        String::from("clipos-0.9.0.efi"),
    ];
    let stale = stale_entries(&listing, &current);
    assert_eq!(
        stale,
        vec![
            String::from("clipos-0.8.0.efi"),
            String::from("clipos-0.9.0.efi"),
        ]
    );
}

#[test]
fn validate_checks_key_and_version() {
    let mut sys = test_system();
    let keypair = minisign::KeyPair::generate_unencrypted_keypair().unwrap();
    sys.pubkey = keypair.pk.to_base64();
    let data = b"payload";
    let sig = minisign::sign(
        None,
        &keypair.sk,
        std::io::Cursor::new(&data[..]),
        Some("1.1.0"),
        None,
    )
    .unwrap()
    .into_string();
    assert_eq!(sys.validate(data, &sig, &Version::new(1, 1, 0)), Ok(()));
    assert!(sys.validate(data, &sig, &Version::new(1, 2, 0)).is_err());
}
