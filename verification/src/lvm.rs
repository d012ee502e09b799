//! Volume groups and logical volumes as the updater sees them: names
//! plus the volume group they belong to. The volume manager itself is
//! driven by the surrounding driver; this module holds the verified
//! reading of its JSON reports and the value computations for create
//! and rename, so that every decision over volumes is checked.

use vstd::prelude::*;
use crate::text::str_eq;

verus! {

/// A failure around the volume manager.
#[derive(Debug, Clone, PartialEq)]
pub enum Error {
    /// The invoked command failed; `message` is its captured stderr.
    Command { command: String, message: String },
    /// The command's JSON report could not be read.
    InvalidReport { command: String },
}

/// A volume group.
#[verifier::ext_equal]
#[derive(Debug, Clone)]
pub struct Vg {
    pub name: String,
}

/// A logical volume, known by its name and its volume group.
#[verifier::ext_equal]
#[derive(Debug, Clone)]
pub struct Lv {
    pub name: String,
    pub vg: Vg,
}

/// One row of the volume manager's volume report.
#[derive(Debug, Clone)]
pub struct LvRecord {
    pub lv_name: String,
    pub vg_name: String,
}

/// Mathematical value of one report row.
#[verifier::ext_equal]
pub ghost struct LvRecordV {
    pub lv_name: Seq<char>,
    pub vg_name: Seq<char>,
}

impl View for LvRecord {
    type V = LvRecordV;

    open spec fn view(&self) -> LvRecordV {
        LvRecordV { lv_name: self.lv_name@, vg_name: self.vg_name@ }
    }
}

impl DeepView for LvRecord {
    type V = LvRecordV;

    open spec fn deep_view(&self) -> LvRecordV {
        self.view()
    }
}

/// What the volume-group report holds: the listed group names, or
/// `None` when the bytes are not a report of that shape.
pub uninterp spec fn vg_report(out: Seq<u8>) -> Option<Seq<Seq<char>>>;

/// What the volume report holds: the listed volume rows, or `None`
/// when the bytes are not a report of that shape.
pub uninterp spec fn lv_report(out: Seq<u8>) -> Option<Seq<LvRecordV>>;

/// Relies on `serde_json::from_slice` to read the volume manager's
/// group report; the names are lifted out of the parsed document.
#[verifier::external_body]
fn parse_vg_report(out: &[u8]) -> (r: Option<Vec<String>>)
    ensures
        match r {
            Some(v) => vg_report(out@) == Some(v.deep_view()),
            None => vg_report(out@) is None,
        },
{
    let doc: serde_json::Value = serde_json::from_slice(out).ok()?;
    let rows = doc.get("report")?.get(0)?.get("vg")?.as_array()?;
    let mut names: Vec<String> = Vec::new();
    for row in rows {
        names.push(String::from(row.get("vg_name")?.as_str()?));
    }
    Some(names)
}

/// Relies on `serde_json::from_slice` to read the volume manager's
/// volume report; each row keeps its volume and group name.
#[verifier::external_body]
fn parse_lv_report(out: &[u8]) -> (r: Option<Vec<LvRecord>>)
    ensures
        match r {
            Some(v) => lv_report(out@) == Some(v.deep_view()),
            None => lv_report(out@) is None,
        },
{
    let doc: serde_json::Value = serde_json::from_slice(out).ok()?;
    let rows = doc.get("report")?.get(0)?.get("lv")?.as_array()?;
    let mut records: Vec<LvRecord> = Vec::new();
    for row in rows {
        records.push(LvRecord {
            lv_name: String::from(row.get("lv_name")?.as_str()?),
            vg_name: String::from(row.get("vg_name")?.as_str()?),
        });
    }
    Some(records)
}

impl Lv {
    /// The volume's name.
    pub fn name(&self) -> (r: String)
        ensures
            r@ == self.name@,
    {
        self.name.clone()
    }

    /// The volume's device path under `/dev`.
    pub fn path(&self) -> (r: String)
        ensures
            r@ == lv_path_seq(self.vg.name@, self.name@),
    {
        proof {
            reveal_strlit("/dev/");
            reveal_strlit("/");
        }
        let mut s = String::from_str("/dev/");
        s.append(self.vg.name.as_str());
        s.append("/");
        s.append(self.name.as_str());
        proof {
            assert(s@ =~= lv_path_seq(self.vg.name@, self.name@));
        }
        s
    }

    /// The volume as it stands after a rename to `dest`. The driver
    /// performs the rename itself; this computes the resulting value.
    pub fn rename_to(&self, dest: String) -> (r: Lv)
        ensures
            r.name@ == dest@,
            r.vg.name@ == self.vg.name@,
    {
        Lv { name: dest, vg: Vg { name: self.vg.name.clone() } }
    }

    /// An exact copy.
    pub fn duplicate(&self) -> (r: Lv)
        ensures
            r == *self,
    {
        let r = Lv { name: self.name.clone(), vg: Vg { name: self.vg.name.clone() } };
        proof {
            assert(r =~= *self);
        }
        r
    }
}

/// The device path of a volume: `/dev/<group>/<name>`.
pub open spec fn lv_path_seq(vg: Seq<char>, name: Seq<char>) -> Seq<char> {
    "/dev/"@ + vg + seq!['/'] + name
}

impl Vg {
    /// All volume groups named by a group report.
    pub fn vgs(report: &[u8]) -> (r: Result<Vec<Vg>, Error>)
        ensures
            match r {
                Ok(v) => vg_report(report@) matches Some(names) && v@.len() == names.len()
                    && (forall|i: int| 0 <= i < names.len() ==> v@[i].name@ == names[i]),
                Err(e) => vg_report(report@) is None && (e matches Error::InvalidReport {
                    command,
                } && command@ == "vgs"@),
            },
    {
        let names = match parse_vg_report(report) {
            None => {
                return Err(Error::InvalidReport { command: String::from_str("vgs") });
            },
            Some(n) => n,
        };
        let mut out: Vec<Vg> = Vec::new();
        let mut k: usize = 0;
        while k < names.len()
            invariant
                0 <= k <= names.len(),
                vg_report(report@) == Some(names.deep_view()),
                out@.len() == k,
                forall|i: int| 0 <= i < k ==> out@[i].name@ == names.deep_view()[i],
            decreases names.len() - k,
        {
            out.push(Vg { name: names[k].clone() });
            k = k + 1;
        }
        Ok(out)
    }

    /// Find a volume group by its name in a group report.
    pub fn find_vg(name: &str, report: &[u8]) -> (r: Result<Option<Vg>, Error>)
        ensures
            match r {
                Ok(Some(vg)) => vg_report(report@) matches Some(names) && names.contains(name@)
                    && vg.name@ == name@,
                Ok(None) => vg_report(report@) matches Some(names) && !names.contains(name@),
                Err(e) => vg_report(report@) is None && (e matches Error::InvalidReport {
                    command,
                } && command@ == "vgs"@),
            },
    {
        let names = match parse_vg_report(report) {
            None => {
                return Err(Error::InvalidReport { command: String::from_str("vgs") });
            },
            Some(n) => n,
        };
        let mut k: usize = 0;
        while k < names.len()
            invariant
                0 <= k <= names.len(),
                vg_report(report@) == Some(names.deep_view()),
                forall|i: int| 0 <= i < k ==> names.deep_view()[i] != name@,
            decreases names.len() - k,
        {
            if str_eq(names[k].as_str(), name) {
                proof {
                    assert(names.deep_view()[k as int] == name@);
                }
                return Ok(Some(Vg { name: names[k].clone() }));
            }
            k = k + 1;
        }
        Ok(None)
    }

    /// All volumes of this group named by a volume report.
    pub fn list_lv(&self, report: &[u8]) -> (r: Result<Vec<Lv>, Error>)
        ensures
            match r {
                Ok(v) => lv_report(report@) matches Some(recs) && v@.len() == recs.len() && (forall|
                    i: int,
                |
                    0 <= i < recs.len() ==> v@[i].name@ == recs[i].lv_name && v@[i].vg.name@
                        == self.name@),
                Err(e) => lv_report(report@) is None && (e matches Error::InvalidReport {
                    command,
                } && command@ == "lvs"@),
            },
    {
        let recs = match parse_lv_report(report) {
            None => {
                return Err(Error::InvalidReport { command: String::from_str("lvs") });
            },
            Some(n) => n,
        };
        let mut out: Vec<Lv> = Vec::new();
        let mut k: usize = 0;
        while k < recs.len()
            invariant
                0 <= k <= recs.len(),
                lv_report(report@) == Some(recs.deep_view()),
                out@.len() == k,
                forall|i: int| 0 <= i < k ==> out@[i].name@ == recs.deep_view()[i].lv_name
                    && out@[i].vg.name@ == self.name@,
            decreases recs.len() - k,
        {
            out.push(Lv { name: recs[k].lv_name.clone(), vg: Vg { name: self.name.clone() } });
            k = k + 1;
        }
        proof {
            let grecs = lv_report(report@)->Some_0;
            assert(out@.len() == grecs.len());
            assert(forall|i: int|
                0 <= i < grecs.len() ==> out@[i].name@ == grecs[i].lv_name && out@[i].vg.name@
                    == self.name@);
        }
        Ok(out)
    }

    /// Find a volume of this group by its name in a volume report.
    pub fn find_lv(&self, name: &str, report: &[u8]) -> (r: Result<Option<Lv>, Error>)
        ensures
            match r {
                Ok(Some(lv)) => lv_report(report@) matches Some(recs) && (exists|i: int|
                    0 <= i < recs.len() && recs[i].lv_name == name@ && recs[i].vg_name
                        == self.name@) && lv.name@ == name@ && lv.vg.name@ == self.name@,
                Ok(None) => lv_report(report@) matches Some(recs) && (forall|i: int|
                    0 <= i < recs.len() ==> !(recs[i].lv_name == name@ && recs[i].vg_name
                        == self.name@)),
                Err(e) => lv_report(report@) is None && (e matches Error::InvalidReport {
                    command,
                } && command@ == "lvs"@),
            },
    {
        let recs = match parse_lv_report(report) {
            None => {
                return Err(Error::InvalidReport { command: String::from_str("lvs") });
            },
            Some(n) => n,
        };
        let mut k: usize = 0;
        while k < recs.len()
            invariant
                0 <= k <= recs.len(),
                lv_report(report@) == Some(recs.deep_view()),
                forall|i: int| 0 <= i < k ==> !(recs.deep_view()[i].lv_name == name@
                    && recs.deep_view()[i].vg_name == self.name@),
            decreases recs.len() - k,
        {
            if str_eq(recs[k].lv_name.as_str(), name) && str_eq(recs[k].vg_name.as_str(), self.name.as_str()) {
                proof {
                    let grecs = lv_report(report@)->Some_0;
                    assert(grecs[k as int].lv_name == name@);
                    assert(grecs[k as int].vg_name == self.name@);
                    assert(exists|i: int|
                        0 <= i < grecs.len() && grecs[i].lv_name == name@ && grecs[i].vg_name
                            == self.name@);
                }
                return Ok(Some(Lv { name: recs[k].lv_name.clone(), vg: Vg { name: self.name.clone() } }));
            }
            k = k + 1;
        }
        Ok(None)
    }

    /// The volume that a create of `name` in this group yields. The
    /// driver runs the creation itself, with the configured size; this
    /// computes the resulting value.
    #[allow(unused_variables)]
    pub fn create_lv(&self, name: &str, size: &str) -> (r: Lv)
        ensures
            r.name@ == name@,
            r.vg.name@ == self.name@,
    {
        Lv { name: name.to_owned(), vg: Vg { name: self.name.clone() } }
    }
}

} // verus!
