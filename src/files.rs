use vstd::prelude::*;

use crate::apps::{leaf, optional_field, record};
use crate::description::DescriptionField;
use crate::error::{Capability, Erro};
use crate::os::{os_compatible, Os};
use crate::text::str_eq;

verus! {

/// What a pattern of a file handler says, as plain values.
pub struct PatternView {
    pub regex: bool,
    pub text: Seq<char>,
    pub compatibility: Seq<Os>,
}

/// Whether `pattern` (regex syntax) matches `text`; `None` where the pattern
/// does not compile.
pub uninterp spec fn regex_outcome(pattern: Seq<char>, text: Seq<char>) -> Option<bool>;

/// Relies on `regex::Regex::new` to compile `pattern` and on
/// `regex::Regex::is_match` to test it against `text`.
#[verifier::external_body]
fn regex_match(pattern: &str, text: &str) -> (r: Option<bool>)
    ensures
        r == regex_outcome(pattern@, text@),
{
    match regex::Regex::new(pattern) {
        Ok(re) => Some(re.is_match(text)),
        Err(_) => None,
    }
}

/// The target's tag is supported by one of `compatibility`.
pub open spec fn any_compatible(compatibility: Seq<Os>, os: Os) -> bool {
    exists|i: int| 0 <= i < compatibility.len() && os_compatible(#[trigger] compatibility[i], os)
}

/// A pattern applies to `path` on `os`: a declared tag is compatible with
/// `os`, and the path equals the exact path or the expression matches it.
pub open spec fn pattern_matches(p: PatternView, path: Seq<char>, os: Os) -> bool {
    any_compatible(p.compatibility, os) && if p.regex {
        regex_outcome(p.text, path) == Some(true)
    } else {
        p.text == path
    }
}

/// How a pattern identifies paths: an exact path, or an expression.
pub enum FileMatchPatternType {
    Path(String),
    Regex(String),
}

/// A path pattern with the tags it is valid on.
pub struct FileMatchPattern {
    pattern: FileMatchPatternType,
    compatibility: Vec<Os>,
}

impl View for FileMatchPattern {
    type V = PatternView;

    closed spec fn view(&self) -> PatternView {
        match self.pattern {
            FileMatchPatternType::Path(s) => PatternView {
                regex: false,
                text: s@,
                compatibility: self.compatibility@,
            },
            FileMatchPatternType::Regex(s) => PatternView {
                regex: true,
                text: s@,
                compatibility: self.compatibility@,
            },
        }
    }
}

/// Whether some tag of `compatibility` supports `os`.
pub fn compatible_with_any(compatibility: &[Os], os: &Os) -> (r: bool)
    ensures
        r == any_compatible(compatibility@, *os),
{
    let mut i: usize = 0;
    while i < compatibility.len()
        invariant
            i <= compatibility@.len(),
            forall|j: int| 0 <= j < i ==> !os_compatible(#[trigger] compatibility@[j], *os),
        decreases compatibility@.len() - i,
    {
        if compatibility[i].compatible(os) {
            return true;
        }
        i = i + 1;
    }
    false
}

fn copy_tags(tags: &[Os]) -> (r: Vec<Os>)
    ensures
        r@ == tags@,
{
    let mut r: Vec<Os> = Vec::new();
    let mut i: usize = 0;
    while i < tags.len()
        invariant
            i <= tags@.len(),
            r@ == tags@.subrange(0, i as int),
        decreases tags@.len() - i,
    {
        r.push(tags[i]);
        assert(tags@.subrange(0, i + 1) == tags@.subrange(0, i as int).push(tags@[i as int]));
        i = i + 1;
    }
    assert(tags@ == tags@.subrange(0, tags@.len() as int));
    r
}

impl FileMatchPattern {
    pub fn new(pattern: FileMatchPatternType, compatibility: &[Os]) -> (r: FileMatchPattern)
        ensures
            r@.compatibility == compatibility@,
            r@.regex == (pattern is Regex),
            match pattern {
                FileMatchPatternType::Path(s) => r@.text == s@,
                FileMatchPatternType::Regex(s) => r@.text == s@,
            },
    {
        FileMatchPattern { pattern, compatibility: copy_tags(compatibility) }
    }

    /// An exact path.
    pub fn new_path(path: &str, compatibility: &[Os]) -> (r: FileMatchPattern)
        ensures
            r@ == (PatternView { regex: false, text: path@, compatibility: compatibility@ }),
    {
        Self::new(FileMatchPatternType::Path(path.to_string()), compatibility)
    }

    /// A regular expression that must match somewhere in the path (anchor it
    /// with `^` and `$` to match the whole path).
    pub fn new_regex(regex: &str, compatibility: &[Os]) -> (r: FileMatchPattern)
        ensures
            r@ == (PatternView { regex: true, text: regex@, compatibility: compatibility@ }),
    {
        Self::new(FileMatchPatternType::Regex(regex.to_string()), compatibility)
    }

    pub fn is_match(&self, value: &str, os: &Os) -> (r: bool)
        ensures
            r == pattern_matches(self@, value@, *os),
    {
        if compatible_with_any(self.compatibility.as_slice(), os) {
            match &self.pattern {
                FileMatchPatternType::Path(s) => str_eq(s.as_str(), value),
                FileMatchPatternType::Regex(re) => match regex_match(re.as_str(), value) {
                    Some(b) => b,
                    None => false,
                },
            }
        } else {
            false
        }
    }
}
fn path_pattern(path: &str, tag: Os) -> (r: FileMatchPattern)
    ensures
        r@ == (PatternView { regex: false, text: path@, compatibility: seq![tag] }),
{
    let tags = vec![tag];
    assert(tags@ =~= seq![tag]);
    FileMatchPattern::new_path(path, tags.as_slice())
}

fn regex_pattern(regex: &str, tag: Os) -> (r: FileMatchPattern)
    ensures
        r@ == (PatternView { regex: true, text: regex@, compatibility: seq![tag] }),
{
    let tags = vec![tag];
    assert(tags@ =~= seq![tag]);
    FileMatchPattern::new_regex(regex, tags.as_slice())
}

/// The file handlers, one variant each.
#[derive(Clone, Copy, Debug, PartialEq, Eq, Structural)]
pub enum FileBuilders {
    VersionBuilder,
    UptimeBuilder,
    SwapsBuilder,
    PartitionsBuilder,
    MountsBuilder,
    MeminfoBuilder,
    MdstatBuilder,
    LoadAvgBuilder,
    FilesystemBuilder,
    CryptoBuilder,
    CpuinfoBuilder,
    PasswdBuilder,
    OsReleaseBuilder,
    HostsBuilder,
    HostnameBuilder,
    FstabBuilder,
    CrontabBuilder,
    YamlBuilder,
    JsonBuilder,
    TextBuilder,
}
pub open spec fn file_name(k: FileBuilders) -> Seq<char> {
    match k {
        FileBuilders::VersionBuilder => "version"@,
        FileBuilders::UptimeBuilder => "uptime"@,
        FileBuilders::SwapsBuilder => "swaps"@,
        FileBuilders::PartitionsBuilder => "partitions"@,
        FileBuilders::MountsBuilder => "mounts"@,
        FileBuilders::MeminfoBuilder => "meminfo"@,
        FileBuilders::MdstatBuilder => "mdstat"@,
        FileBuilders::LoadAvgBuilder => "loadavg"@,
        FileBuilders::FilesystemBuilder => "filesystems"@,
        FileBuilders::CryptoBuilder => "crypto"@,
        FileBuilders::CpuinfoBuilder => "cpuinfo"@,
        FileBuilders::PasswdBuilder => "passwd"@,
        FileBuilders::OsReleaseBuilder => "os-release"@,
        FileBuilders::HostsBuilder => "hosts"@,
        FileBuilders::HostnameBuilder => "hostname"@,
        FileBuilders::FstabBuilder => "fstab"@,
        FileBuilders::CrontabBuilder => "cronjob"@,
        FileBuilders::YamlBuilder => "yaml"@,
        FileBuilders::JsonBuilder => "json"@,
        FileBuilders::TextBuilder => "text"@,
    }
}
pub open spec fn file_description(k: FileBuilders) -> Seq<char> {
    match k {
        FileBuilders::VersionBuilder => "Kernel version and compiler information"@,
        FileBuilders::UptimeBuilder => "Get uptime and idle time or each cpu (total) in seconds"@,
        FileBuilders::SwapsBuilder => "Swap information"@,
        FileBuilders::PartitionsBuilder => "Partition information"@,
        FileBuilders::MountsBuilder => "Mount information"@,
        FileBuilders::MeminfoBuilder => "Memory information"@,
        FileBuilders::MdstatBuilder => "Get mdstat information."@,
        FileBuilders::LoadAvgBuilder => "Get load average"@,
        FileBuilders::FilesystemBuilder => "Get filesystems"@,
        FileBuilders::CryptoBuilder => "Get crypto information"@,
        FileBuilders::CpuinfoBuilder => "Get information about processor"@,
        FileBuilders::PasswdBuilder => "Managed passwd file."@,
        FileBuilders::OsReleaseBuilder => "read os-release file"@,
        FileBuilders::HostsBuilder => "Manage hosts file. Preserve comments and whitespaces."@,
        FileBuilders::HostnameBuilder => "Get or set hostname"@,
        FileBuilders::FstabBuilder => "Read and write fstab file. Modify behaves like create. In/output variables are equal."@,
        FileBuilders::CrontabBuilder => "read and write cronjob file"@,
        FileBuilders::YamlBuilder => "Read or write yaml file"@,
        FileBuilders::JsonBuilder => "Read or write json file"@,
        FileBuilders::TextBuilder => "Get text files, create new text file, replace content or append it."@,
    }
}
pub open spec fn file_capabilities(k: FileBuilders) -> Seq<Capability> {
    match k {
        FileBuilders::VersionBuilder => seq![Capability::Read],
        FileBuilders::UptimeBuilder => seq![Capability::Read],
        FileBuilders::SwapsBuilder => seq![Capability::Read],
        FileBuilders::PartitionsBuilder => seq![Capability::Read],
        FileBuilders::MountsBuilder => seq![Capability::Read],
        FileBuilders::MeminfoBuilder => seq![Capability::Read],
        FileBuilders::MdstatBuilder => seq![Capability::Read],
        FileBuilders::LoadAvgBuilder => seq![Capability::Read],
        FileBuilders::FilesystemBuilder => seq![Capability::Read],
        FileBuilders::CryptoBuilder => seq![Capability::Read],
        FileBuilders::CpuinfoBuilder => seq![Capability::Read],
        FileBuilders::PasswdBuilder => seq![Capability::Read, Capability::Write, Capability::Delete],
        FileBuilders::OsReleaseBuilder => seq![Capability::Read],
        FileBuilders::HostsBuilder => seq![Capability::Read, Capability::Write, Capability::Delete],
        FileBuilders::HostnameBuilder => seq![Capability::Read, Capability::Write, Capability::Delete],
        FileBuilders::FstabBuilder => seq![Capability::Read, Capability::Write, Capability::Delete],
        FileBuilders::CrontabBuilder => seq![Capability::Read, Capability::Write, Capability::Delete],
        FileBuilders::YamlBuilder => seq![Capability::Read, Capability::Write, Capability::Delete],
        FileBuilders::JsonBuilder => seq![Capability::Read, Capability::Write, Capability::Delete],
        FileBuilders::TextBuilder => seq![Capability::Read, Capability::Write, Capability::Delete],
    }
}
pub open spec fn file_patterns(k: FileBuilders) -> Seq<PatternView> {
    match k {
        FileBuilders::VersionBuilder => seq![PatternView { regex: false, text: "/proc/version"@, compatibility: seq![Os::LinuxAny] }],
        FileBuilders::UptimeBuilder => seq![PatternView { regex: false, text: "/proc/uptime"@, compatibility: seq![Os::LinuxAny] }],
        FileBuilders::SwapsBuilder => seq![PatternView { regex: false, text: "/proc/swaps"@, compatibility: seq![Os::LinuxAny] }],
        FileBuilders::PartitionsBuilder => seq![PatternView { regex: false, text: "/proc/partitions"@, compatibility: seq![Os::LinuxAny] }],
        FileBuilders::MountsBuilder => seq![PatternView { regex: false, text: "/proc/mounts"@, compatibility: seq![Os::LinuxAny] }],
        FileBuilders::MeminfoBuilder => seq![PatternView { regex: false, text: "/proc/meminfo"@, compatibility: seq![Os::LinuxAny] }],
        FileBuilders::MdstatBuilder => seq![PatternView { regex: false, text: "/proc/mdstat"@, compatibility: seq![Os::LinuxAny] }],
        FileBuilders::LoadAvgBuilder => seq![PatternView { regex: false, text: "/proc/loadavg"@, compatibility: seq![Os::LinuxAny] }],
        FileBuilders::FilesystemBuilder => seq![PatternView { regex: false, text: "/proc/filesystems"@, compatibility: seq![Os::LinuxAny] }],
        FileBuilders::CryptoBuilder => seq![PatternView { regex: false, text: "/proc/crypto"@, compatibility: seq![Os::LinuxAny] }],
        FileBuilders::CpuinfoBuilder => seq![PatternView { regex: false, text: "/proc/cpuinfo"@, compatibility: seq![Os::LinuxAny] }],
        FileBuilders::PasswdBuilder => seq![PatternView { regex: false, text: "/etc/passwd"@, compatibility: seq![Os::LinuxAny] }],
        FileBuilders::OsReleaseBuilder => seq![PatternView { regex: false, text: "/etc/os-release"@, compatibility: seq![Os::LinuxUbuntu] }],
        FileBuilders::HostsBuilder => seq![PatternView { regex: false, text: "/etc/hosts"@, compatibility: seq![Os::LinuxAny] }],
        FileBuilders::HostnameBuilder => seq![PatternView { regex: false, text: "/etc/hostname"@, compatibility: seq![Os::LinuxAny] }],
        FileBuilders::FstabBuilder => seq![PatternView { regex: false, text: "/etc/fstab"@, compatibility: seq![Os::LinuxAny] }],
        FileBuilders::CrontabBuilder => seq![PatternView { regex: false, text: "/etc/crontab"@, compatibility: seq![Os::LinuxAny] }, PatternView { regex: true, text: "/etc/cron\\.d/.*"@, compatibility: seq![Os::LinuxAny] }],
        FileBuilders::YamlBuilder => seq![PatternView { regex: true, text: "^.*.(yaml|YAML|yml|YML)$"@, compatibility: seq![Os::LinuxAny] }],
        FileBuilders::JsonBuilder => seq![PatternView { regex: true, text: "^.*.(json|JSON)$"@, compatibility: seq![Os::LinuxAny] }],
        FileBuilders::TextBuilder => seq![PatternView { regex: true, text: ".*"@, compatibility: seq![Os::LinuxAny] }],
    }
}
/// A handler applies to `path` on `os` when one of its patterns does.
pub open spec fn builder_matches(k: FileBuilders, path: Seq<char>, os: Os) -> bool {
    exists|i: int| 0 <= i < file_patterns(k).len() && pattern_matches(#[trigger] file_patterns(k)[i], path, os)
}

/// The registration order of the file handlers; specific handlers precede
/// the catch-all ones.
pub open spec fn file_order() -> Seq<FileBuilders> {
    seq![FileBuilders::VersionBuilder, FileBuilders::UptimeBuilder, FileBuilders::SwapsBuilder, FileBuilders::PartitionsBuilder, FileBuilders::MountsBuilder, FileBuilders::MeminfoBuilder, FileBuilders::MdstatBuilder, FileBuilders::LoadAvgBuilder, FileBuilders::FilesystemBuilder, FileBuilders::CryptoBuilder, FileBuilders::CpuinfoBuilder, FileBuilders::PasswdBuilder, FileBuilders::OsReleaseBuilder, FileBuilders::HostsBuilder, FileBuilders::HostnameBuilder, FileBuilders::FstabBuilder, FileBuilders::CrontabBuilder, FileBuilders::YamlBuilder, FileBuilders::JsonBuilder, FileBuilders::TextBuilder]
}

impl FileBuilders {
    pub fn name(&self) -> (r: &'static str)
        ensures
            r@ == file_name(*self),
    {
        match self {
            FileBuilders::VersionBuilder => "version",
            FileBuilders::UptimeBuilder => "uptime",
            FileBuilders::SwapsBuilder => "swaps",
            FileBuilders::PartitionsBuilder => "partitions",
            FileBuilders::MountsBuilder => "mounts",
            FileBuilders::MeminfoBuilder => "meminfo",
            FileBuilders::MdstatBuilder => "mdstat",
            FileBuilders::LoadAvgBuilder => "loadavg",
            FileBuilders::FilesystemBuilder => "filesystems",
            FileBuilders::CryptoBuilder => "crypto",
            FileBuilders::CpuinfoBuilder => "cpuinfo",
            FileBuilders::PasswdBuilder => "passwd",
            FileBuilders::OsReleaseBuilder => "os-release",
            FileBuilders::HostsBuilder => "hosts",
            FileBuilders::HostnameBuilder => "hostname",
            FileBuilders::FstabBuilder => "fstab",
            FileBuilders::CrontabBuilder => "cronjob",
            FileBuilders::YamlBuilder => "yaml",
            FileBuilders::JsonBuilder => "json",
            FileBuilders::TextBuilder => "text",
        }
    }

    pub fn description(&self) -> (r: &'static str)
        ensures
            r@ == file_description(*self),
    {
        match self {
            FileBuilders::VersionBuilder => "Kernel version and compiler information",
            FileBuilders::UptimeBuilder => "Get uptime and idle time or each cpu (total) in seconds",
            FileBuilders::SwapsBuilder => "Swap information",
            FileBuilders::PartitionsBuilder => "Partition information",
            FileBuilders::MountsBuilder => "Mount information",
            FileBuilders::MeminfoBuilder => "Memory information",
            FileBuilders::MdstatBuilder => "Get mdstat information.",
            FileBuilders::LoadAvgBuilder => "Get load average",
            FileBuilders::FilesystemBuilder => "Get filesystems",
            FileBuilders::CryptoBuilder => "Get crypto information",
            FileBuilders::CpuinfoBuilder => "Get information about processor",
            FileBuilders::PasswdBuilder => "Managed passwd file.",
            FileBuilders::OsReleaseBuilder => "read os-release file",
            FileBuilders::HostsBuilder => "Manage hosts file. Preserve comments and whitespaces.",
            FileBuilders::HostnameBuilder => "Get or set hostname",
            FileBuilders::FstabBuilder => "Read and write fstab file. Modify behaves like create. In/output variables are equal.",
            FileBuilders::CrontabBuilder => "read and write cronjob file",
            FileBuilders::YamlBuilder => "Read or write yaml file",
            FileBuilders::JsonBuilder => "Read or write json file",
            FileBuilders::TextBuilder => "Get text files, create new text file, replace content or append it.",
        }
    }

    pub fn capabilities(&self) -> (r: Vec<Capability>)
        ensures
            r@ == file_capabilities(*self),
    {
        match self {
            FileBuilders::VersionBuilder => vec![Capability::Read],
            FileBuilders::UptimeBuilder => vec![Capability::Read],
            FileBuilders::SwapsBuilder => vec![Capability::Read],
            FileBuilders::PartitionsBuilder => vec![Capability::Read],
            FileBuilders::MountsBuilder => vec![Capability::Read],
            FileBuilders::MeminfoBuilder => vec![Capability::Read],
            FileBuilders::MdstatBuilder => vec![Capability::Read],
            FileBuilders::LoadAvgBuilder => vec![Capability::Read],
            FileBuilders::FilesystemBuilder => vec![Capability::Read],
            FileBuilders::CryptoBuilder => vec![Capability::Read],
            FileBuilders::CpuinfoBuilder => vec![Capability::Read],
            FileBuilders::PasswdBuilder => vec![Capability::Read, Capability::Write, Capability::Delete],
            FileBuilders::OsReleaseBuilder => vec![Capability::Read],
            FileBuilders::HostsBuilder => vec![Capability::Read, Capability::Write, Capability::Delete],
            FileBuilders::HostnameBuilder => vec![Capability::Read, Capability::Write, Capability::Delete],
            FileBuilders::FstabBuilder => vec![Capability::Read, Capability::Write, Capability::Delete],
            FileBuilders::CrontabBuilder => vec![Capability::Read, Capability::Write, Capability::Delete],
            FileBuilders::YamlBuilder => vec![Capability::Read, Capability::Write, Capability::Delete],
            FileBuilders::JsonBuilder => vec![Capability::Read, Capability::Write, Capability::Delete],
            FileBuilders::TextBuilder => vec![Capability::Read, Capability::Write, Capability::Delete],
        }
    }

    /// The patterns by which this handler recognises its files.
    pub fn patterns(&self) -> (r: Vec<FileMatchPattern>)
        ensures
            r@.len() == file_patterns(*self).len(),
            forall|i: int| 0 <= i < r@.len() ==> r@[i]@ == file_patterns(*self)[i],
    {
        match self {
            FileBuilders::VersionBuilder => vec![path_pattern("/proc/version", Os::LinuxAny)],
            FileBuilders::UptimeBuilder => vec![path_pattern("/proc/uptime", Os::LinuxAny)],
            FileBuilders::SwapsBuilder => vec![path_pattern("/proc/swaps", Os::LinuxAny)],
            FileBuilders::PartitionsBuilder => vec![path_pattern("/proc/partitions", Os::LinuxAny)],
            FileBuilders::MountsBuilder => vec![path_pattern("/proc/mounts", Os::LinuxAny)],
            FileBuilders::MeminfoBuilder => vec![path_pattern("/proc/meminfo", Os::LinuxAny)],
            FileBuilders::MdstatBuilder => vec![path_pattern("/proc/mdstat", Os::LinuxAny)],
            FileBuilders::LoadAvgBuilder => vec![path_pattern("/proc/loadavg", Os::LinuxAny)],
            FileBuilders::FilesystemBuilder => vec![path_pattern("/proc/filesystems", Os::LinuxAny)],
            FileBuilders::CryptoBuilder => vec![path_pattern("/proc/crypto", Os::LinuxAny)],
            FileBuilders::CpuinfoBuilder => vec![path_pattern("/proc/cpuinfo", Os::LinuxAny)],
            FileBuilders::PasswdBuilder => vec![path_pattern("/etc/passwd", Os::LinuxAny)],
            FileBuilders::OsReleaseBuilder => vec![path_pattern("/etc/os-release", Os::LinuxUbuntu)],
            FileBuilders::HostsBuilder => vec![path_pattern("/etc/hosts", Os::LinuxAny)],
            FileBuilders::HostnameBuilder => vec![path_pattern("/etc/hostname", Os::LinuxAny)],
            FileBuilders::FstabBuilder => vec![path_pattern("/etc/fstab", Os::LinuxAny)],
            FileBuilders::CrontabBuilder => vec![path_pattern("/etc/crontab", Os::LinuxAny), regex_pattern("/etc/cron\\.d/.*", Os::LinuxAny)],
            FileBuilders::YamlBuilder => vec![regex_pattern("^.*.(yaml|YAML|yml|YML)$", Os::LinuxAny)],
            FileBuilders::JsonBuilder => vec![regex_pattern("^.*.(json|JSON)$", Os::LinuxAny)],
            FileBuilders::TextBuilder => vec![regex_pattern(".*", Os::LinuxAny)],
        }
    }

    /// Whether this handler applies to `path` on `os`.
    pub fn is_match(&self, path: &str, os: &Os) -> (r: bool)
        ensures
            r == builder_matches(*self, path@, *os),
    {
        let patterns = self.patterns();
        let mut i: usize = 0;
        while i < patterns.len()
            invariant
                i <= patterns@.len(),
                patterns@.len() == file_patterns(*self).len(),
                forall|j: int| 0 <= j < patterns@.len() ==> patterns@[j]@ == file_patterns(*self)[j],
                forall|j: int| 0 <= j < i ==> !pattern_matches(#[trigger] file_patterns(*self)[j], path@, *os),
            decreases patterns@.len() - i,
        {
            if patterns[i].is_match(path, os) {
                assert(pattern_matches(file_patterns(*self)[i as int], path@, *os));
                return true;
            }
            i = i + 1;
        }
        false
    }

    /// Capability check for a read or a write; deletion is always available.
    pub fn capable(&self, capability: Capability) -> (r: Result<(), Erro>)
        ensures
            r is Ok <==> (capability == Capability::Delete || file_capabilities(*self).contains(
                capability,
            )),
            r matches Err(e) ==> e == Erro::File(crate::error::FileError::NotCapable(capability)),
    {
        if capability == Capability::Delete {
            return Ok(());
        }
        let caps = self.capabilities();
        let mut i: usize = 0;
        while i < caps.len()
            invariant
                i <= caps@.len(),
                caps@ == file_capabilities(*self),
                forall|j: int| 0 <= j < i ==> caps@[j] != capability,
            decreases caps@.len() - i,
        {
            if caps[i] == capability {
                return Ok(());
            }
            i = i + 1;
        }
        Err(Erro::File(crate::error::FileError::NotCapable(capability)))
    }
}


/// A documented use of a file handler, with values as JSON text.
pub enum FileExample {
    Get { description: &'static str, output: &'static str },
    Write { description: &'static str, input: &'static str },
    Delete { description: &'static str },
}

pub open spec fn file_input_kind(k: FileBuilders) -> Seq<char> {
    match k {
        FileBuilders::VersionBuilder => "empty"@,
        FileBuilders::UptimeBuilder => "empty"@,
        FileBuilders::SwapsBuilder => "empty"@,
        FileBuilders::PartitionsBuilder => "empty"@,
        FileBuilders::MountsBuilder => "empty"@,
        FileBuilders::MeminfoBuilder => "empty"@,
        FileBuilders::MdstatBuilder => "empty"@,
        FileBuilders::LoadAvgBuilder => "empty"@,
        FileBuilders::FilesystemBuilder => "empty"@,
        FileBuilders::CryptoBuilder => "empty"@,
        FileBuilders::CpuinfoBuilder => "empty"@,
        FileBuilders::PasswdBuilder => "PasswdInput"@,
        FileBuilders::OsReleaseBuilder => "empty"@,
        FileBuilders::HostsBuilder => "empty"@,
        FileBuilders::HostnameBuilder => "HostnameInput"@,
        FileBuilders::FstabBuilder => "Fstab"@,
        FileBuilders::CrontabBuilder => "Crontab"@,
        FileBuilders::YamlBuilder => "unknown"@,
        FileBuilders::JsonBuilder => "unknown"@,
        FileBuilders::TextBuilder => "TextInput"@,
    }
}

pub open spec fn file_output_kind(k: FileBuilders) -> Seq<char> {
    match k {
        FileBuilders::VersionBuilder => "Version"@,
        FileBuilders::UptimeBuilder => "Uptime"@,
        FileBuilders::SwapsBuilder => "array"@,
        FileBuilders::PartitionsBuilder => "array"@,
        FileBuilders::MountsBuilder => "array"@,
        FileBuilders::MeminfoBuilder => "Meminfo"@,
        FileBuilders::MdstatBuilder => "MdstatDetails"@,
        FileBuilders::LoadAvgBuilder => "LoadAvg"@,
        FileBuilders::FilesystemBuilder => "array"@,
        FileBuilders::CryptoBuilder => "array"@,
        FileBuilders::CpuinfoBuilder => "array"@,
        FileBuilders::PasswdBuilder => "Passwd"@,
        FileBuilders::OsReleaseBuilder => "OsRelease"@,
        FileBuilders::HostsBuilder => "array"@,
        FileBuilders::HostnameBuilder => "String"@,
        FileBuilders::FstabBuilder => "Fstab"@,
        FileBuilders::CrontabBuilder => "Crontab"@,
        FileBuilders::YamlBuilder => "unknown"@,
        FileBuilders::JsonBuilder => "unknown"@,
        FileBuilders::TextBuilder => "String"@,
    }
}

pub open spec fn file_example_count(k: FileBuilders) -> nat {
    match k {
        FileBuilders::VersionBuilder => 1,
        FileBuilders::UptimeBuilder => 0,
        FileBuilders::SwapsBuilder => 0,
        FileBuilders::PartitionsBuilder => 0,
        FileBuilders::MountsBuilder => 0,
        FileBuilders::MeminfoBuilder => 0,
        FileBuilders::MdstatBuilder => 0,
        FileBuilders::LoadAvgBuilder => 0,
        FileBuilders::FilesystemBuilder => 0,
        FileBuilders::CryptoBuilder => 0,
        FileBuilders::CpuinfoBuilder => 0,
        FileBuilders::PasswdBuilder => 3,
        FileBuilders::OsReleaseBuilder => 0,
        FileBuilders::HostsBuilder => 0,
        FileBuilders::HostnameBuilder => 1,
        FileBuilders::FstabBuilder => 0,
        FileBuilders::CrontabBuilder => 0,
        FileBuilders::YamlBuilder => 2,
        FileBuilders::JsonBuilder => 2,
        FileBuilders::TextBuilder => 2,
    }
}

impl FileBuilders {
    /// The schema of what a write takes.
    pub fn input(&self) -> (r: DescriptionField)
        ensures
            r.kind@ == file_input_kind(*self),
    {
        match self {
            FileBuilders::VersionBuilder => leaf("empty", "empty"),
            FileBuilders::UptimeBuilder => leaf("empty", "empty"),
            FileBuilders::SwapsBuilder => leaf("empty", "empty"),
            FileBuilders::PartitionsBuilder => leaf("empty", "empty"),
            FileBuilders::MountsBuilder => leaf("empty", "empty"),
            FileBuilders::MeminfoBuilder => leaf("empty", "empty"),
            FileBuilders::MdstatBuilder => leaf("empty", "empty"),
            FileBuilders::LoadAvgBuilder => leaf("empty", "empty"),
            FileBuilders::FilesystemBuilder => leaf("empty", "empty"),
            FileBuilders::CryptoBuilder => leaf("empty", "empty"),
            FileBuilders::CpuinfoBuilder => leaf("empty", "empty"),
            FileBuilders::PasswdBuilder => {
                let e = record("PasswdEntry", vec![leaf("String", "user"), leaf("String", "password"), leaf("usize", "user_id"), leaf("usize", "group_id"), leaf("String", "comment"), leaf("String", "home"), leaf("String", "program")]);
                let entries = DescriptionField::new("optional", "new_entries", "use eventually fields", vec![DescriptionField::array(e)]);
                let users = DescriptionField::new("optional", "remove_by_username", "use eventually fields", vec![DescriptionField::array(leaf("String", "String"))]);
                record("PasswdInput", vec![entries, users, optional_field("bool", "overwrite")])
            },
            FileBuilders::OsReleaseBuilder => leaf("empty", "empty"),
            FileBuilders::HostsBuilder => leaf("empty", "empty"),
            FileBuilders::HostnameBuilder => record("HostnameInput", vec![leaf("String", "hostname")]),
            FileBuilders::FstabBuilder => record("Fstab", Vec::new()),
            FileBuilders::CrontabBuilder => record("Crontab", Vec::new()),
            FileBuilders::YamlBuilder => DescriptionField::new("unknown", "unknown", "yaml data", Vec::new()),
            FileBuilders::JsonBuilder => DescriptionField::new("unknown", "unknown", "json data", Vec::new()),
            FileBuilders::TextBuilder => record("TextInput", vec![leaf("String", "content")]),
        }
    }

    /// The schema of what a read yields.
    pub fn output(&self) -> (r: DescriptionField)
        ensures
            r.kind@ == file_output_kind(*self),
    {
        match self {
            FileBuilders::VersionBuilder => record("Version", vec![leaf("String", "version"), leaf("String", "compiled_by"), leaf("String", "compiled_host"), leaf("String", "compiler")]),
            FileBuilders::UptimeBuilder => record("Uptime", Vec::new()),
            FileBuilders::SwapsBuilder => DescriptionField::array(record("Swap", Vec::new())),
            FileBuilders::PartitionsBuilder => DescriptionField::array(record("Partition", Vec::new())),
            FileBuilders::MountsBuilder => DescriptionField::array(record("Mounts", Vec::new())),
            FileBuilders::MeminfoBuilder => record("Meminfo", Vec::new()),
            FileBuilders::MdstatBuilder => record("MdstatDetails", Vec::new()),
            FileBuilders::LoadAvgBuilder => record("LoadAvg", Vec::new()),
            FileBuilders::FilesystemBuilder => DescriptionField::array(record("FilesystemItem", Vec::new())),
            FileBuilders::CryptoBuilder => DescriptionField::array(record("CryptoItem", Vec::new())),
            FileBuilders::CpuinfoBuilder => DescriptionField::array(record("CpuInfoDetail", Vec::new())),
            FileBuilders::PasswdBuilder => record("Passwd", vec![{ let e = record("PasswdEntry", vec![leaf("String", "user"), leaf("String", "password"), leaf("usize", "user_id"), leaf("usize", "group_id"), leaf("String", "comment"), leaf("String", "home"), leaf("String", "program")]); let mut a = DescriptionField::array(e); a.name = "content".to_string(); a }]),
            FileBuilders::OsReleaseBuilder => record("OsRelease", vec![leaf("String", "name"), optional_field("String", "version"), leaf("String", "id"), optional_field("String", "id_like"), optional_field("String", "version_id"), optional_field("String", "pretty_name"), optional_field("String", "ansi_color"), optional_field("String", "cpe_name"), optional_field("String", "build_id"), optional_field("String", "home_url"), optional_field("String", "bug_report_url"), optional_field("String", "support_url"), optional_field("String", "privacy_policy_url"), optional_field("String", "variant"), optional_field("String", "variant_id"), optional_field("String", "version_codename")]),
            FileBuilders::HostsBuilder => DescriptionField::array(record("HostsLine", Vec::new())),
            FileBuilders::HostnameBuilder => leaf("String", "String"),
            FileBuilders::FstabBuilder => record("Fstab", Vec::new()),
            FileBuilders::CrontabBuilder => record("Crontab", Vec::new()),
            FileBuilders::YamlBuilder => DescriptionField::new("unknown", "unknown", "yaml data", Vec::new()),
            FileBuilders::JsonBuilder => DescriptionField::new("unknown", "unknown", "json data", Vec::new()),
            FileBuilders::TextBuilder => leaf("String", "String"),
        }
    }

    /// Documented uses of the handler.
    pub fn examples(&self) -> (r: Vec<FileExample>)
        ensures
            r@.len() == file_example_count(*self),
    {
        match self {
            FileBuilders::VersionBuilder => vec![FileExample::Get { description: "Simple example", output: "{\"version\":\"Linux version 5.15.0-76-generic\",\"compiled_by\":\"buildd\",\"compiled_host\":\"lcy02-amd64-019\",\"compiler\":\"gcc (Ubuntu 9.4.0-1ubuntu1~20.04.1) 9.4.0, GNU ld (GNU Binutils for Ubuntu) 2.34\"}" }],
            FileBuilders::UptimeBuilder => Vec::new(),
            FileBuilders::SwapsBuilder => Vec::new(),
            FileBuilders::PartitionsBuilder => Vec::new(),
            FileBuilders::MountsBuilder => Vec::new(),
            FileBuilders::MeminfoBuilder => Vec::new(),
            FileBuilders::MdstatBuilder => Vec::new(),
            FileBuilders::LoadAvgBuilder => Vec::new(),
            FileBuilders::FilesystemBuilder => Vec::new(),
            FileBuilders::CryptoBuilder => Vec::new(),
            FileBuilders::CpuinfoBuilder => Vec::new(),
            FileBuilders::PasswdBuilder => vec![FileExample::Get { description: "Example content", output: "[{\"user\":\"root\",\"password\":\"x\",\"user_id\":0,\"group_id\":0,\"comment\":\"super user\",\"home\":\"/root\",\"program\":\"/bin/bash\"}]" }, FileExample::Write { description: "Add an user and remove another one.", input: "{\"new_entries\":[{\"user\":\"homer\",\"password\":\"x\",\"user_id\":1000,\"group_id\":1000,\"comment\":\"wohoo\",\"home\":\"/home/homer\",\"program\":\"/bin/sh\"}],\"remove_by_username\":[\"bart\"],\"overwrite\":false}" }, FileExample::Delete { description: "Delete the file" }],
            FileBuilders::OsReleaseBuilder => Vec::new(),
            FileBuilders::HostsBuilder => Vec::new(),
            FileBuilders::HostnameBuilder => vec![FileExample::Get { description: "Hostname", output: "\"linux386\"" }],
            FileBuilders::FstabBuilder => Vec::new(),
            FileBuilders::CrontabBuilder => Vec::new(),
            FileBuilders::YamlBuilder => vec![FileExample::Get { description: "simple yaml", output: "\"hello: world\"" }, FileExample::Write { description: "simple yaml", input: "\"hello: world\"" }],
            FileBuilders::JsonBuilder => vec![FileExample::Get { description: "simple json", output: "\"{ \\\"hello\\\": \\\"world\\\" }\"" }, FileExample::Write { description: "simple json", input: "\"{ \\\"hello\\\": \\\"world\\\" }\"" }],
            FileBuilders::TextBuilder => vec![FileExample::Get { description: "Text file", output: "\"Some text \\nAnd more\\nAnd end\"" }, FileExample::Write { description: "Create new text file", input: "{\"content\":\"A new Text file\\nHave a good day.\"}" }],
        }
    }
}

/// Everything a user needs to address a file handler.
pub struct FileHelp {
    pub name: &'static str,
    pub description: &'static str,
    pub capabilities: Vec<Capability>,
    pub patterns: Vec<FileMatchPattern>,
    pub input: DescriptionField,
    pub output: DescriptionField,
    pub examples: Vec<FileExample>,
}

impl FileBuilders {
    /// The help bundle of the handler; no side effects.
    pub fn help(&self) -> (r: FileHelp)
        ensures
            r.name@ == file_name(*self),
            r.description@ == file_description(*self),
            r.capabilities@ == file_capabilities(*self),
            r.input.kind@ == file_input_kind(*self),
            r.output.kind@ == file_output_kind(*self),
            r.examples@.len() == file_example_count(*self),
            r.patterns@.len() == file_patterns(*self).len(),
            forall|i: int| 0 <= i < r.patterns@.len() ==> r.patterns@[i]@ == file_patterns(*self)[i],
    {
        FileHelp {
            name: self.name(),
            description: self.description(),
            capabilities: self.capabilities(),
            patterns: self.patterns(),
            input: self.input(),
            output: self.output(),
            examples: self.examples(),
        }
    }
}

/// The file handlers in registration order.
pub fn file_builders() -> (r: Vec<FileBuilders>)
    ensures
        r@ == file_order(),
{
    vec![FileBuilders::VersionBuilder, FileBuilders::UptimeBuilder, FileBuilders::SwapsBuilder, FileBuilders::PartitionsBuilder, FileBuilders::MountsBuilder, FileBuilders::MeminfoBuilder, FileBuilders::MdstatBuilder, FileBuilders::LoadAvgBuilder, FileBuilders::FilesystemBuilder, FileBuilders::CryptoBuilder, FileBuilders::CpuinfoBuilder, FileBuilders::PasswdBuilder, FileBuilders::OsReleaseBuilder, FileBuilders::HostsBuilder, FileBuilders::HostnameBuilder, FileBuilders::FstabBuilder, FileBuilders::CrontabBuilder, FileBuilders::YamlBuilder, FileBuilders::JsonBuilder, FileBuilders::TextBuilder]
}

} // verus!
