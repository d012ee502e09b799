//! The system under update: its name, its running version, the two
//! packages to install, the verification key and the cache directory.
//! Every path and URL the run touches is computed here, with its exact
//! text stated in the contract.

use vstd::prelude::*;
use crate::errors::Error;
use crate::trust;
use crate::trust::valid_artifact;
use crate::version::{version_seq, Version};

verus! {

/// A package kind: the root filesystem image or the boot binary.
#[derive(Clone, Copy, Debug, PartialEq, Eq, Structural)]
pub enum Kind {
    Core,
    Efiboot,
}

/// A package to install: its kind, its derived name, the configured
/// destination, and for the core image the configured volume size.
#[derive(Debug, Clone)]
pub struct Package {
    pub kind: Kind,
    pub name: String,
    pub destination: String,
    pub size: Option<String>,
}

impl Package {
    /// A package descriptor; the name follows the kind.
    pub fn new(kind: Kind, destination: &str, size: Option<String>) -> (r: Package)
        ensures
            r.kind == kind,
            r.name@ == if kind is Core {
                "core"@
            } else {
                "efiboot"@
            },
            r.destination@ == destination@,
            r.size == size,
    {
        let name = match kind {
            Kind::Core => String::from_str("core"),
            Kind::Efiboot => String::from_str("efiboot"),
        };
        Package { kind, name, destination: destination.to_owned(), size }
    }
}

/// The state of the running system, fixed for the whole run.
#[derive(Debug, Clone)]
pub struct System {
    pub os_name: String,
    pub version: Version,
    pub core: Package,
    pub efiboot: Package,
    /// The verification public key, in its base64 form.
    pub pubkey: String,
    pub download_cache: String,
}

/// The cache path of a package: `<cache>/<os>-<pkg>`.
pub open spec fn cache_seq(cache: Seq<char>, os: Seq<char>, pkg: Seq<char>) -> Seq<char> {
    cache + seq!['/'] + os + seq!['-'] + pkg
}

/// The final destination of a package: the boot binary goes under the
/// boot directory as `<os>-<version>.efi`, the core image onto the
/// volume device `/dev/<group>/<name>_<version>`.
pub open spec fn dest_seq(pkg_kind: Kind, pkg_dest: Seq<char>, pkg_name: Seq<char>, os: Seq<char>, v: crate::version::VersionV) -> Seq<char> {
    if pkg_kind is Efiboot {
        pkg_dest + seq!['/'] + os + seq!['-'] + version_seq(v) + ".efi"@
    } else {
        "/dev/"@ + pkg_dest + seq!['/'] + pkg_name + seq!['_'] + version_seq(v)
    }
}

/// The download URL of a package: `<base>/<version>/<os>-<pkg>`.
pub open spec fn url_seq(base: Seq<char>, v: crate::version::VersionV, os: Seq<char>, pkg: Seq<char>) -> Seq<char> {
    base + seq!['/'] + version_seq(v) + seq!['/'] + os + seq!['-'] + pkg
}

impl System {
    pub fn new(
        os_name: String,
        core: Package,
        efiboot: Package,
        version: Version,
        pubkey: String,
        download_cache: String,
    ) -> (r: System)
        ensures
            r.os_name@ == os_name@,
            r.core == core,
            r.efiboot == efiboot,
            r.version@ == version@,
            r.pubkey@ == pubkey@,
            r.download_cache@ == download_cache@,
    {
        System { os_name, core, efiboot, version, pubkey, download_cache }
    }

    /// The cache file of a package.
    pub fn cache(&self, pkg: &Package) -> (r: String)
        ensures
            r@ == cache_seq(self.download_cache@, self.os_name@, pkg.name@),
    {
        proof {
            reveal_strlit("/");
            reveal_strlit("-");
        }
        let mut s = self.download_cache.clone();
        s.append("/");
        s.append(self.os_name.as_str());
        s.append("-");
        s.append(pkg.name.as_str());
        proof {
            assert(s@ =~= cache_seq(self.download_cache@, self.os_name@, pkg.name@));
        }
        s
    }

    /// The cache file of a package's detached signature.
    pub fn cache_sig(&self, pkg: &Package) -> (r: String)
        ensures
            r@ == cache_seq(self.download_cache@, self.os_name@, pkg.name@) + ".sig"@,
    {
        let mut s = self.cache(pkg);
        s.append(".sig");
        s
    }

    /// The final installation destination of a package at a version.
    pub fn dest(&self, pkg: &Package, v: &Version) -> (r: String)
        ensures
            r@ == dest_seq(pkg.kind, pkg.destination@, pkg.name@, self.os_name@, v@),
    {
        proof {
            reveal_strlit("/");
            reveal_strlit("-");
            reveal_strlit("_");
            reveal_strlit(".efi");
            reveal_strlit("/dev/");
        }
        match pkg.kind {
            Kind::Efiboot => {
                let mut s = pkg.destination.clone();
                s.append("/");
                s.append(self.os_name.as_str());
                s.append("-");
                let vs = v.render();
                s.append(vs.as_str());
                s.append(".efi");
                proof {
                    assert(s@ =~= dest_seq(pkg.kind, pkg.destination@, pkg.name@, self.os_name@, v@));
                }
                s
            },
            Kind::Core => {
                let mut s = String::from_str("/dev/");
                s.append(pkg.destination.as_str());
                s.append("/");
                s.append(pkg.name.as_str());
                s.append("_");
                let vs = v.render();
                s.append(vs.as_str());
                proof {
                    assert(s@ =~= dest_seq(pkg.kind, pkg.destination@, pkg.name@, self.os_name@, v@));
                }
                s
            },
        }
    }

    /// The URL a package at a version is downloaded from.
    pub fn url(&self, pkg: &Package, base: &str, v: &Version) -> (r: String)
        ensures
            r@ == url_seq(base@, v@, self.os_name@, pkg.name@),
    {
        proof {
            reveal_strlit("/");
            reveal_strlit("-");
        }
        let mut s = base.to_owned();
        s.append("/");
        let vs = v.render();
        s.append(vs.as_str());
        s.append("/");
        s.append(self.os_name.as_str());
        s.append("-");
        s.append(pkg.name.as_str());
        proof {
            assert(s@ =~= url_seq(base@, v@, self.os_name@, pkg.name@));
        }
        s
    }

    /// The URL a package's detached signature is downloaded from.
    pub fn url_sig(&self, pkg: &Package, base: &str, v: &Version) -> (r: String)
        ensures
            r@ == url_seq(base@, v@, self.os_name@, pkg.name@) + ".sig"@,
    {
        let mut s = self.url(pkg, base, v);
        s.append(".sig");
        s
    }

    /// Validate one artifact's bytes and signature text against the
    /// planned version, under this system's key.
    pub fn validate(&self, data: &[u8], sig: &str, v: &Version) -> (r: Result<(), Error>)
        ensures
            r is Ok <==> valid_artifact(self.pubkey@, data@, sig@, v@),
            r matches Err(e) ==> trust::verify_rejects(self.pubkey@, data@, sig@, v@, e),
    {
        trust::verify(self.pubkey.as_str(), data, sig, v)
    }
}

} // verus!
