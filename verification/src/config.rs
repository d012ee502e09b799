//! Configuration records and the remote endpoint. The driver reads and
//! decodes the configuration files; this module holds the records they
//! yield, the verified assembly of a `System` from them, and the
//! verified reading of the remote version answer.

use vstd::prelude::*;
use crate::errors::Error;
use crate::system::{Kind, Package, System};
use crate::version::{parsed_version, version_before, Version, VersionV};

verus! {

/// The local install configuration.
#[derive(Debug, Clone)]
pub struct TomlConfig {
    pub os_name: String,
    pub core: TomlCore,
    pub efiboot: TomlEfiboot,
}

/// Where the core image goes, and how large a fresh volume is made.
#[derive(Debug, Clone)]
pub struct TomlCore {
    pub destination: String,
    pub size: String,
}

/// Where the boot binary goes.
#[derive(Debug, Clone)]
pub struct TomlEfiboot {
    pub destination: String,
}

/// The remote endpoint configuration.
#[derive(Debug, Clone)]
pub struct TomlRemote {
    pub update_url: String,
    pub dist_url: String,
}

/// The remote's answer to a version query.
#[derive(Debug, Clone)]
pub struct TomlVersion {
    pub version: String,
}

/// The remote update source, reduced to its two URLs. The pinned root
/// certificate and the request headers stay with the driver, which
/// owns the transport.
#[derive(Debug, Clone)]
pub struct Remote {
    pub update_url: String,
    pub dist_url: String,
}

/// What the remote's version answer holds: the `version` field of the
/// decoded document, or `None` when the text is not such a document.
pub uninterp spec fn toml_version_of(body: Seq<char>) -> Option<Seq<char>>;

/// Relies on `toml::Table::from_str` to decode the remote's version
/// answer; the `version` field is lifted out of the parsed document.
#[verifier::external_body]
fn parse_version_answer(body: &str) -> (r: Option<TomlVersion>)
    ensures
        match r {
            Some(v) => toml_version_of(body@) == Some(v.version@),
            None => toml_version_of(body@) is None,
        },
{
    let doc: toml::Table = body.parse().ok()?;
    Some(TomlVersion { version: String::from(doc.get("version")?.as_str()?) })
}

/// Assemble the run's `System` and `Remote` values from the decoded
/// configuration, the installed version text and the key text. Fails
/// exactly when the installed version text is not a semantic version;
/// the version is kept with its build metadata stripped.
pub fn configure(c: TomlConfig, r: TomlRemote, version_id: &str, pubkey: String, cache_dir: String)
    -> (res: Result<(System, Remote), Error>)
    ensures
        match res {
            Ok((sys, rem)) => {
                &&& parsed_version(version_id@) matches Some(v) && sys.version@ == (VersionV {
                    build: Seq::<char>::empty(),
                    ..v
                })
                &&& sys.os_name@ == c.os_name@
                &&& sys.core.kind == Kind::Core
                &&& sys.core.name@ == "core"@
                &&& sys.core.destination@ == c.core.destination@
                &&& sys.core.size matches Some(s) && s@ == c.core.size@
                &&& sys.efiboot.kind == Kind::Efiboot
                &&& sys.efiboot.name@ == "efiboot"@
                &&& sys.efiboot.destination@ == c.efiboot.destination@
                &&& sys.efiboot.size is None
                &&& sys.pubkey@ == pubkey@
                &&& sys.download_cache@ == cache_dir@
                &&& rem.update_url@ == r.update_url@
                &&& rem.dist_url@ == r.dist_url@
            },
            Err(e) => parsed_version(version_id@) is None && (e matches Error::InvalidVersion {
                version,
            } && version@ == version_id@),
        },
{
    let version = match Version::parse(version_id) {
        None => {
            return Err(Error::InvalidVersion { version: version_id.to_owned() });
        },
        Some(v) => v,
    };
    let version = version.strip_build();
    let core = Package::new(Kind::Core, c.core.destination.as_str(), Some(c.core.size.clone()));
    let efiboot = Package::new(Kind::Efiboot, c.efiboot.destination.as_str(), None);
    let sys = System::new(c.os_name, core, efiboot, version, pubkey, cache_dir);
    let rem = Remote { update_url: r.update_url.clone(), dist_url: r.dist_url.clone() };
    Ok((sys, rem))
}

impl Remote {
    /// The URL the version descriptor is fetched from:
    /// `<update_url>/<os_name>/version`.
    pub fn check_url(&self, os_name: &str) -> (r: String)
        ensures
            r@ == self.update_url@ + seq!['/'] + os_name@ + "/version"@,
    {
        proof {
            reveal_strlit("/");
        }
        let mut s = self.update_url.clone();
        s.append("/");
        s.append(os_name);
        s.append("/version");
        proof {
            assert(s@ =~= self.update_url@ + seq!['/'] + os_name@ + "/version"@);
        }
        s
    }

    /// Read the remote's version answer and compare it with the
    /// running version: the remote version comes back only when it is
    /// strictly newer.
    pub fn check_update(&self, system: &System, body: &str) -> (r: Result<Option<Version>, Error>)
        ensures
            match r {
                Ok(Some(v)) => (toml_version_of(body@) matches Some(vs) && parsed_version(vs)
                    == Some(v@)) && version_before(system.version@, v@),
                Ok(None) => (toml_version_of(body@) matches Some(vs) && parsed_version(vs)
                    matches Some(v)) && !version_before(system.version@, toml_parsed(body@)),
                Err(e) => match e {
                    Error::InvalidRemoteToml => toml_version_of(body@) is None,
                    Error::InvalidVersion { version } => toml_version_of(body@) == Some(version@)
                        && parsed_version(version@) is None,
                    _ => false,
                },
            },
    {
        let answer = match parse_version_answer(body) {
            None => {
                return Err(Error::InvalidRemoteToml);
            },
            Some(a) => a,
        };
        let remote_version = match Version::parse(answer.version.as_str()) {
            None => {
                return Err(Error::InvalidVersion { version: answer.version });
            },
            Some(v) => v,
        };
        if system.version.precedes(&remote_version) {
            Ok(Some(remote_version))
        } else {
            Ok(None)
        }
    }
}

/// The version named by the remote's answer, where the answer decodes
/// and its `version` field parses.
pub open spec fn toml_parsed(body: Seq<char>) -> VersionV {
    parsed_version(toml_version_of(body)->Some_0)->Some_0
}

} // verus!
