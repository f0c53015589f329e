use vstd::prelude::*;

use crate::error::{Erro, OsReleaseError};
use crate::task::opt_view;
use crate::text::{chars_of, split_char, split_on, split_once, split_once_spec, str_eq, string_of};

verus! {

/// A non-empty line `KEY=VALUE` read as its key and value.
pub open spec fn line_entry(line: Seq<char>) -> Option<(Seq<char>, Seq<char>)> {
    if line.len() == 0 {
        None
    } else {
        split_once_spec(line, seq!['='])
    }
}

/// The value of the last line that sets `key`.
pub open spec fn last_value(lines: Seq<Seq<char>>, key: Seq<char>) -> Option<Seq<char>>
    decreases lines.len(),
{
    if lines.len() == 0 {
        None
    } else {
        match line_entry(lines.last()) {
            Some((k, v)) => if k == key {
                Some(v)
            } else {
                last_value(lines.drop_last(), key)
            },
            None => last_value(lines.drop_last(), key),
        }
    }
}

/// The lines of an os-release text.
pub open spec fn release_lines(content: Seq<char>) -> Seq<Seq<char>> {
    split_char(content, '\n')
}

/// The value set for `key`, if any line sets it.
fn release_value(lines: &Vec<Vec<char>>, key: &str) -> (r: Option<String>)
    ensures
        opt_view(r) == last_value(lines@.map_values(|l: Vec<char>| l@), key@),
{
    let ghost ls = lines@.map_values(|l: Vec<char>| l@);
    let k = chars_of(key);
    let eq = chars_of("=");
    proof {
        reveal_strlit("=");
        assert(eq@ =~= seq!['=']);
    }
    let mut found: Option<Vec<char>> = None;
    let mut i: usize = 0;
    assert(ls.subrange(0, 0) =~= Seq::<Seq<char>>::empty());
    while i < lines.len()
        invariant
            i <= lines@.len(),
            ls == lines@.map_values(|l: Vec<char>| l@),
            k@ == key@,
            eq@ == seq!['='],
            match found {
                Some(v) => last_value(ls.subrange(0, i as int), key@) == Some(v@),
                None => last_value(ls.subrange(0, i as int), key@) is None,
            },
        decreases lines@.len() - i,
    {
        let line = &lines[i];
        proof {
            assert(ls.subrange(0, i + 1).drop_last() =~= ls.subrange(0, i as int));
            assert(ls.subrange(0, i + 1).last() == line@);
        }
        if line.len() > 0 {
            match split_once(line.as_slice(), eq.as_slice()) {
                Some((lk, lv)) => {
                    let same = str_eq(string_of(lk.as_slice()).as_str(), key);
                    if same {
                        found = Some(lv);
                    }
                },
                None => {},
            }
        }
        i = i + 1;
    }
    assert(ls.subrange(0, lines@.len() as int) =~= ls);
    match found {
        Some(v) => Some(string_of(v.as_slice())),
        None => None,
    }
}

/// The fields of an os-release file.
#[derive(Debug, PartialEq, Eq)]
pub struct OsRelease {
    pub name: String,
    pub version: Option<String>,
    pub id: String,
    pub id_like: Option<String>,
    pub version_id: Option<String>,
    pub pretty_name: Option<String>,
    pub ansi_color: Option<String>,
    pub cpe_name: Option<String>,
    pub build_id: Option<String>,
    pub home_url: Option<String>,
    pub bug_report_url: Option<String>,
    pub support_url: Option<String>,
    pub privacy_policy_url: Option<String>,
    pub variant: Option<String>,
    pub variant_id: Option<String>,
    pub version_codename: Option<String>,
}

impl OsRelease {
    pub fn id(&self) -> (r: &str)
        ensures
            r@ == self.id@,
    {
        self.id.as_str()
    }

    pub fn version_codename(&self) -> (r: Option<&str>)
        ensures
            r matches Some(s) ==> opt_view(self.version_codename) == Some(s@),
            r is None ==> self.version_codename is None,
    {
        match &self.version_codename {
            Some(s) => Some(s.as_str()),
            None => None,
        }
    }

    /// Reads `KEY=VALUE` lines; a later line overrides an earlier one with the
    /// same key. `NAME` and `ID` are required, in that order.
    pub fn try_from(value: &str) -> (r: Result<OsRelease, Erro>)
        ensures
            ({
                let lines = release_lines(value@);
                match (last_value(lines, "NAME"@), last_value(lines, "ID"@)) {
                    (None, _) => r == Err::<OsRelease, Erro>(Erro::OsRelease(OsReleaseError::Name)),
                    (Some(_), None) => r == Err::<OsRelease, Erro>(Erro::OsRelease(OsReleaseError::Id)),
                    (Some(n), Some(i)) => r matches Ok(rel) && rel.name@ == n && rel.id@ == i &&
                    opt_view(rel.version) == last_value(lines, "VERSION"@) &&
                    opt_view(rel.id_like) == last_value(lines, "ID_LIKE"@) &&
                    opt_view(rel.version_id) == last_value(lines, "VERSION_ID"@) &&
                    opt_view(rel.pretty_name) == last_value(lines, "PRETTY_NAME"@) &&
                    opt_view(rel.ansi_color) == last_value(lines, "ANSI_COLOR"@) &&
                    opt_view(rel.cpe_name) == last_value(lines, "CPE_NAME"@) &&
                    opt_view(rel.build_id) == last_value(lines, "BUILD_ID"@) &&
                    opt_view(rel.home_url) == last_value(lines, "HOME_URL"@) &&
                    opt_view(rel.bug_report_url) == last_value(lines, "BUG_REPORT_URL"@) &&
                    opt_view(rel.support_url) == last_value(lines, "SUPPORT_URL"@) &&
                    opt_view(rel.privacy_policy_url) == last_value(lines, "PRIVACY_POLICY_URL"@) &&
                    opt_view(rel.variant) == last_value(lines, "VARIANT"@) &&
                    opt_view(rel.variant_id) == last_value(lines, "VARIANT_ID"@) &&
                    opt_view(rel.version_codename) == last_value(lines, "VERSION_CODENAME"@),
                }
            }),
    {
        let c = chars_of(value);
        let parts = split_on(c.as_slice(), '\n');
        let lines = parts;
        proof {
            assert(lines@.map_values(|l: Vec<char>| l@) =~= release_lines(value@));
        }
        let name = match release_value(&lines, "NAME") {
            Some(n) => n,
            None => return Err(Erro::OsRelease(OsReleaseError::Name)),
        };
        let id = match release_value(&lines, "ID") {
            Some(n) => n,
            None => return Err(Erro::OsRelease(OsReleaseError::Id)),
        };
        let version = release_value(&lines, "VERSION");
        let id_like = release_value(&lines, "ID_LIKE");
        let version_id = release_value(&lines, "VERSION_ID");
        let pretty_name = release_value(&lines, "PRETTY_NAME");
        let ansi_color = release_value(&lines, "ANSI_COLOR");
        let cpe_name = release_value(&lines, "CPE_NAME");
        let build_id = release_value(&lines, "BUILD_ID");
        let home_url = release_value(&lines, "HOME_URL");
        let bug_report_url = release_value(&lines, "BUG_REPORT_URL");
        let support_url = release_value(&lines, "SUPPORT_URL");
        let privacy_policy_url = release_value(&lines, "PRIVACY_POLICY_URL");
        let variant = release_value(&lines, "VARIANT");
        let variant_id = release_value(&lines, "VARIANT_ID");
        let version_codename = release_value(&lines, "VERSION_CODENAME");
        Ok(
            OsRelease {
                name,
                version,
                id,
                id_like,
                version_id,
                pretty_name,
                ansi_color,
                cpe_name,
                build_id,
                home_url,
                bug_report_url,
                support_url,
                privacy_policy_url,
                variant,
                variant_id,
                version_codename,
            },
        )
    }
}

} // verus!
