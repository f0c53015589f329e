use vstd::prelude::*;

use crate::description::DescriptionField;
use crate::error::{Erro, UnameError};
use crate::os::{os_compatible, Os};
use crate::text::{
    chars_of, parse_usize, parse_usize_spec, rsplit_once, rsplit_once_spec, slice_of, split_char,
    split_on, split_once, split_once_spec, split_ws, string_of, trim_end_chars, trim_end_spec,
    ws_fields,
};

verus! {

/// Input of the shell app: one command line for `sh -c`.
pub struct ShInput {
    pub command: String,
}

/// Input of the touch app.
pub struct TouchInput {
    pub path: String,
}

/// Input of the wget app.
pub struct WgetInput {
    pub output: Option<String>,
    pub user: Option<String>,
    pub password: Option<String>,
    pub no_check_certificates: Option<bool>,
    pub url: String,
}

/// Input of the ls app.
pub struct LsInput {
    pub list: Option<bool>,
    pub all: Option<bool>,
    pub human_readable: Option<bool>,
    pub classify: Option<bool>,
    pub path: String,
}

impl LsInput {
    pub fn new(
        list: Option<bool>,
        all: Option<bool>,
        human_readable: Option<bool>,
        classify: Option<bool>,
        path: String,
    ) -> (r: LsInput)
        ensures
            r.list == list,
            r.all == all,
            r.human_readable == human_readable,
            r.classify == classify,
            r.path@ == path@,
    {
        LsInput { list, all, human_readable, classify, path }
    }
}

/// The items separated by single spaces.
pub open spec fn spaced_join(xs: Seq<Seq<char>>) -> Seq<char>
    decreases xs.len(),
{
    if xs.len() == 0 {
        Seq::empty()
    } else if xs.len() == 1 {
        xs[0]
    } else {
        spaced_join(xs.drop_last()) + seq![' '] + xs.last()
    }
}

/// One entry of an `ls` listing.
#[derive(Debug, PartialEq, Eq)]
pub struct LsEntry {
    pub filename: String,
    pub size: Option<String>,
    pub permissions: Option<String>,
}

/// What a line of a long listing gives: permissions are the first field,
/// the size the fifth, and the name the fields from the ninth on; a short
/// listing line is the name alone.
pub open spec fn ls_line(list: bool, line: Seq<char>) -> Option<(Seq<char>, Option<Seq<char>>, Option<Seq<char>>)> {
    if list {
        let f = ws_fields(line);
        if f.len() < 8 {
            None
        } else {
            Some((spaced_join(f.subrange(8, f.len() as int)), Some(f[4]), Some(f[0])))
        }
    } else {
        Some((line, None, None))
    }
}

impl LsEntry {
    pub fn filename(&self) -> (r: &str)
        ensures
            r@ == self.filename@,
    {
        self.filename.as_str()
    }

    pub fn size(&self) -> (r: Option<&str>)
        ensures
            r matches Some(x) ==> self.size matches Some(s) && s@ == x@,
            r is None ==> self.size is None,
    {
        match &self.size {
            Some(x) => Some(x.as_str()),
            None => None,
        }
    }

    /// Reads one line of `ls` output, long or short as `arguments` asked.
    pub fn parse_from_line(arguments: &LsInput, line: &str) -> (r: Result<LsEntry, Erro>)
        ensures
            match ls_line(arguments.list == Some(true), line@) {
                None => r == Err::<LsEntry, Erro>(Erro::LsLineInvalid),
                Some((name, size, perm)) => r matches Ok(e) && e.filename@ == name
                    && crate::task::opt_view(e.size) == size && crate::task::opt_view(e.permissions)
                    == perm,
            },
    {
        if arguments.list == Some(true) {
            let lc = chars_of(line);
            let parts = split_ws(lc.as_slice());
            if parts.len() < 8 {
                return Err(Erro::LsLineInvalid);
            }
            let ghost f = ws_fields(line@);
            let mut name: Vec<char> = Vec::new();
            let mut i: usize = 8;
            while i < parts.len()
                invariant
                    8 <= i <= parts@.len(),
                    parts@.len() == f.len(),
                    forall|j: int| 0 <= j < parts@.len() ==> parts@[j]@ == f[j],
                    name@ == spaced_join(f.subrange(8, i as int)),
                decreases parts@.len() - i,
            {
                let ghost before = f.subrange(8, i as int);
                if i > 8 {
                    name.push(' ');
                }
                let c = &parts[i];
                let mut k: usize = 0;
                let ghost start = name@;
                while k < c.len()
                    invariant
                        k <= c@.len(),
                        name@ == start + c@.subrange(0, k as int),
                    decreases c@.len() - k,
                {
                    name.push(c[k]);
                    assert(c@.subrange(0, k + 1) == c@.subrange(0, k as int).push(c@[k as int]));
                    k = k + 1;
                }
                proof {
                    assert(c@.subrange(0, c@.len() as int) == c@);
                    let after = f.subrange(8, i + 1);
                    assert(after.drop_last() =~= before);
                    assert(after.last() == parts@[i as int]@);
                    if i == 8 {
                        assert(after.len() == 1);
                        assert(name@ =~= spaced_join(after));
                    } else {
                        assert(name@ =~= spaced_join(after));
                    }
                }
                i = i + 1;
            }
            Ok(
                LsEntry {
                    filename: string_of(name.as_slice()),
                    size: Some(string_of(parts[4].as_slice())),
                    permissions: Some(string_of(parts[0].as_slice())),
                },
            )
        } else {
            Ok(LsEntry { filename: line.to_string(), size: None, permissions: None })
        }
    }
}

/// A directory listing item: name without a trailing slash, whether it is
/// a directory, and its size.
#[derive(Debug, PartialEq, Eq)]
pub struct DirItem {
    pub name: String,
    pub directory: bool,
    pub size: usize,
}

/// What a listing entry says of an item: a trailing `/` marks a directory
/// and is dropped from the name; the size must be a number.
pub open spec fn dir_item_of(filename: Seq<char>, size: Option<Seq<char>>) -> Result<(Seq<char>, bool, usize), Erro> {
    let directory = filename.len() > 0 && filename.last() == '/';
    let name = if directory {
        filename.drop_last()
    } else {
        filename
    };
    match size {
        None => Err(Erro::DirFileSizeUnknown),
        Some(s) => match parse_usize_spec(s) {
            None => Err(Erro::ParseInt),
            Some(n) => Ok((name, directory, n)),
        },
    }
}

impl DirItem {
    pub fn try_from(value: &LsEntry) -> (r: Result<DirItem, Erro>)
        ensures
            match dir_item_of(value.filename@, crate::task::opt_view(value.size)) {
                Err(e) => r == Err::<DirItem, Erro>(e),
                Ok((name, directory, size)) => r matches Ok(d) && d.name@ == name && d.directory
                    == directory && d.size == size,
            },
    {
        let f = chars_of(value.filename.as_str());
        let directory = f.len() > 0 && f[f.len() - 1] == '/';
        let name = if directory {
            slice_of(f.as_slice(), 0, f.len() - 1)
        } else {
            f
        };
        let size = match &value.size {
            None => return Err(Erro::DirFileSizeUnknown),
            Some(s) => {
                let c = chars_of(s.as_str());
                match parse_usize(c.as_slice()) {
                    None => return Err(Erro::ParseInt),
                    Some(n) => n,
                }
            },
        };
        proof {
            if directory {
                assert(name@ =~= value.filename@.drop_last());
            }
        }
        Ok(DirItem { name: string_of(name.as_slice()), directory, size })
    }

    pub fn name(&self) -> (r: &str)
        ensures
            r@ == self.name@,
    {
        self.name.as_str()
    }

    pub fn directory(&self) -> (r: bool)
        ensures
            r == self.directory,
    {
        self.directory
    }
}

/// The lines of an `ls` listing after the leading total, empty ones left out.
pub open spec fn listing_lines(content: Seq<char>) -> Seq<Seq<char>> {
    let ls = split_char(content, '\n');
    ls.subrange(1, ls.len() as int).filter(nonempty_line())
}

pub open spec fn nonempty_line() -> spec_fn(Seq<char>) -> bool {
    |l: Seq<char>| l.len() > 0
}

/// Every item that filtering a prefix keeps is kept, at the same place,
/// when filtering the whole sequence.
proof fn lemma_filter_prefix_kept(s: Seq<Seq<char>>, pred: spec_fn(Seq<char>) -> bool, j: int)
    requires
        0 <= j <= s.len(),
    ensures
        s.subrange(0, j).filter(pred).len() <= s.filter(pred).len(),
        forall|k: int|
            0 <= k < s.subrange(0, j).filter(pred).len() ==> #[trigger] s.filter(pred)[k]
                == s.subrange(0, j).filter(pred)[k],
    decreases s.len() - j,
{
    reveal(Seq::filter);
    if j < s.len() {
        lemma_filter_prefix_kept(s, pred, j + 1);
        assert(s.subrange(0, j + 1).drop_last() =~= s.subrange(0, j));
    } else {
        assert(s.subrange(0, j) =~= s);
    }
}

/// `e` is what `line` reads as.
pub open spec fn entry_matches(e: LsEntry, list: bool, line: Seq<char>) -> bool {
    match ls_line(list, line) {
        Some((name, size, perm)) => e.filename@ == name && crate::task::opt_view(e.size) == size
            && crate::task::opt_view(e.permissions) == perm,
        None => false,
    }
}

/// Reads an `ls` listing: one entry per non-empty line after the first.
pub fn parse_listing(input: &LsInput, content: &str) -> (r: Result<Vec<LsEntry>, Erro>)
    ensures
        r is Ok <==> forall|k: int|
            0 <= k < listing_lines(content@).len() ==> ls_line(
                input.list == Some(true),
                #[trigger] listing_lines(content@)[k],
            ) is Some,
        r matches Err(e) ==> e == Erro::LsLineInvalid,
        r matches Ok(v) ==> v@.len() == listing_lines(content@).len() && forall|k: int|
            0 <= k < v@.len() ==> entry_matches(
                #[trigger] v@[k],
                input.list == Some(true),
                listing_lines(content@)[k],
            ),
{
    let c = chars_of(content);
    let lines = split_on(c.as_slice(), '\n');
    let ghost ls = split_char(content@, '\n');
    let ghost keep = nonempty_line();
    let mut out: Vec<LsEntry> = Vec::new();
    let mut i: usize = 1;
    proof {
        reveal(Seq::filter);
        assert(ls.subrange(1, 1).filter(keep) =~= Seq::<Seq<char>>::empty());
    }
    assert(ls.len() >= 1) by {
        crate::text::lemma_split_char_nonempty(content@, '\n');
    }
    while i < lines.len()
        invariant
            1 <= i <= lines@.len(),
            ls == split_char(content@, '\n'),
            keep == nonempty_line(),
            lines@.len() == ls.len(),
            forall|k: int| 0 <= k < lines@.len() ==> lines@[k]@ == ls[k],
            out@.len() == ls.subrange(1, i as int).filter(keep).len(),
            forall|k: int|
                0 <= k < out@.len() ==> entry_matches(
                    #[trigger] out@[k],
                    input.list == Some(true),
                    ls.subrange(1, i as int).filter(keep)[k],
                ),
            forall|k: int|
                0 <= k < ls.subrange(1, i as int).filter(keep).len() ==> ls_line(
                    input.list == Some(true),
                    #[trigger] ls.subrange(1, i as int).filter(keep)[k],
                ) is Some,
        decreases lines@.len() - i,
    {
        proof {
            reveal(Seq::filter);
            assert(ls.subrange(1, i + 1).drop_last() =~= ls.subrange(1, i as int));
            assert(ls.subrange(1, i + 1).last() == lines@[i as int]@);
        }
        if lines[i].len() > 0 {
            let line = string_of(lines[i].as_slice());
            match LsEntry::parse_from_line(input, line.as_str()) {
                Ok(e) => {
                    out.push(e);
                },
                Err(err) => {
                    proof {
                        let f = ls.subrange(1, i + 1).filter(keep);
                        assert(keep(line@));
                        assert(f == ls.subrange(1, i as int).filter(keep).push(line@));
                        lemma_filter_prefix_kept(ls.subrange(1, ls.len() as int), keep, i as int);
                        assert(ls.subrange(1, ls.len() as int).subrange(0, i as int) =~= ls.subrange(1, i + 1));
                        let k = f.len() - 1;
                        assert(listing_lines(content@)[k] == line@);
                        assert(ls_line(input.list == Some(true), listing_lines(content@)[k]) is None);
                    }
                    return Err(err);
                },
            }
        }
        i = i + 1;
    }
    assert(ls.subrange(1, lines@.len() as int) =~= ls.subrange(1, ls.len() as int));
    Ok(out)
}

/// Options of `uname`.
#[derive(Clone, Copy, Debug, PartialEq, Eq, Structural)]
pub enum UnameOptions {
    All,
}

impl UnameOptions {
    pub fn value(&self) -> (r: &'static str)
        ensures
            r@ == "-a"@,
    {
        match self {
            UnameOptions::All => "-a",
        }
    }
}

/// The kernel name, node name and release (split at the first three
/// spaces) and the rest of a `uname -a` line.
pub open spec fn uname_left(c: Seq<char>) -> Option<(Seq<char>, Seq<char>, Seq<char>, Seq<char>)> {
    match split_once_spec(c, " "@) {
        None => None,
        Some((a, r1)) => match split_once_spec(r1, " "@) {
            None => None,
            Some((b, r2)) => match split_once_spec(r2, " "@) {
                None => None,
                Some((k, rest)) => Some((a, b, k, rest)),
            },
        },
    }
}

/// Kernel version, machine, processor, hardware platform and operating
/// system: the rest split at its last four spaces.
pub open spec fn uname_right(t: Seq<char>) -> Option<(Seq<char>, Seq<char>, Seq<char>, Seq<char>, Seq<char>)> {
    match rsplit_once_spec(t, " "@) {
        None => None,
        Some((x1, os)) => match rsplit_once_spec(x1, " "@) {
            None => None,
            Some((x2, hw)) => match rsplit_once_spec(x2, " "@) {
                None => None,
                Some((x3, pr)) => match rsplit_once_spec(x3, " "@) {
                    None => None,
                    Some((version, machine)) => Some((version, machine, pr, hw, os)),
                },
            },
        },
    }
}

/// The fields of `uname -a`.
#[derive(Debug, PartialEq, Eq)]
pub struct Uname {
    pub kernel_name: String,
    pub nodename: String,
    pub kernel_release: String,
    pub kernel_version: String,
    pub machine: String,
    pub processor: String,
    pub hardware_platform: String,
    pub operating_system: String,
}

impl Uname {
    /// The executable behind the uname app.
    pub fn executable() -> (r: &'static str)
        ensures
            r@ == "/bin/uname"@,
    {
        "/bin/uname"
    }

    /// Builds the fields from the first three and from the (trimmed) rest
    /// of the line.
    pub fn from_parts(kernel_name: &[char], nodename: &[char], kernel_release: &[char], tail: &str) -> (r:
        Result<Uname, Erro>)
        ensures
            match uname_right(tail@) {
                None => r == Err::<Uname, Erro>(Erro::Uname(UnameError::ParseRight)),
                Some((v, m, p, h, o)) => r matches Ok(u) && u.kernel_name@ == kernel_name@
                    && u.nodename@ == nodename@ && u.kernel_release@ == kernel_release@
                    && u.kernel_version@ == v && u.machine@ == m && u.processor@ == p
                    && u.hardware_platform@ == h && u.operating_system@ == o,
            },
    {
        let t = chars_of(tail);
        let sp = chars_of(" ");
        let (x1, os) = match rsplit_once(t.as_slice(), sp.as_slice()) {
            Some(p) => p,
            None => return Err(Erro::Uname(UnameError::ParseRight)),
        };
        let (x2, hw) = match rsplit_once(x1.as_slice(), sp.as_slice()) {
            Some(p) => p,
            None => return Err(Erro::Uname(UnameError::ParseRight)),
        };
        let (x3, pr) = match rsplit_once(x2.as_slice(), sp.as_slice()) {
            Some(p) => p,
            None => return Err(Erro::Uname(UnameError::ParseRight)),
        };
        let (version, machine) = match rsplit_once(x3.as_slice(), sp.as_slice()) {
            Some(p) => p,
            None => return Err(Erro::Uname(UnameError::ParseRight)),
        };
        Ok(
            Uname {
                kernel_name: string_of(kernel_name),
                nodename: string_of(nodename),
                kernel_release: string_of(kernel_release),
                kernel_version: string_of(version.as_slice()),
                machine: string_of(machine.as_slice()),
                processor: string_of(pr.as_slice()),
                hardware_platform: string_of(hw.as_slice()),
                operating_system: string_of(os.as_slice()),
            },
        )
    }

    /// Reads one `uname -a` line.
    pub fn parse(content: &str) -> (r: Result<Uname, Erro>)
        ensures
            match uname_left(content@) {
                None => r == Err::<Uname, Erro>(Erro::Uname(UnameError::ParseLeft)),
                Some((a, b, k, rest)) => match uname_right(trim_end_spec(rest)) {
                    None => r == Err::<Uname, Erro>(Erro::Uname(UnameError::ParseRight)),
                    Some((v, m, p, h, o)) => r matches Ok(u) && u.kernel_name@ == a
                        && u.nodename@ == b && u.kernel_release@ == k && u.kernel_version@ == v
                        && u.machine@ == m && u.processor@ == p && u.hardware_platform@ == h
                        && u.operating_system@ == o,
                },
            },
    {
        let c = chars_of(content);
        let sp = chars_of(" ");
        let (a, r1) = match split_once(c.as_slice(), sp.as_slice()) {
            Some(p) => p,
            None => return Err(Erro::Uname(UnameError::ParseLeft)),
        };
        let (b, r2) = match split_once(r1.as_slice(), sp.as_slice()) {
            Some(p) => p,
            None => return Err(Erro::Uname(UnameError::ParseLeft)),
        };
        let (k, rest) = match split_once(r2.as_slice(), sp.as_slice()) {
            Some(p) => p,
            None => return Err(Erro::Uname(UnameError::ParseLeft)),
        };
        let tail_chars = trim_end_chars(rest.as_slice());
        let tail = string_of(tail_chars.as_slice());
        Self::from_parts(a.as_slice(), b.as_slice(), k.as_slice(), tail.as_str())
    }
}

/// The ls app's builder.
pub struct LsBuilder;

impl LsBuilder {
    /// The executable behind the ls app.
    pub fn path() -> (r: &'static str)
        ensures
            r@ == "/bin/ls"@,
    {
        "/bin/ls"
    }
}

/// Input handed to an app, already taken apart from its untyped form.
pub enum AppInput {
    Ls(LsInput),
    Sh(ShInput),
    Touch(TouchInput),
    Uname,
    Wget(WgetInput),
}

/// The apps, one variant each.
#[derive(Clone, Copy, Debug, PartialEq, Eq, Structural)]
pub enum AppBuilders {
    LsBuilder,
    ShBuilder,
    TouchBuilder,
    UnameBuilder,
    WgetBuilder,
}

pub open spec fn app_name(k: AppBuilders) -> Seq<char> {
    match k {
        AppBuilders::LsBuilder => "ls"@,
        AppBuilders::ShBuilder => "sh"@,
        AppBuilders::TouchBuilder => "touch"@,
        AppBuilders::UnameBuilder => "uname"@,
        AppBuilders::WgetBuilder => "wget"@,
    }
}

pub open spec fn app_description(k: AppBuilders) -> Seq<char> {
    match k {
        AppBuilders::LsBuilder => "Use ls to list directory and files."@,
        AppBuilders::ShBuilder => "Shell"@,
        AppBuilders::TouchBuilder => "Touch command"@,
        AppBuilders::UnameBuilder => "operating system information. currently -a supported"@,
        AppBuilders::WgetBuilder => "Wget with limited function."@,
    }
}

/// Every app declares support for any Linux.
pub open spec fn app_supported_os(k: AppBuilders) -> Seq<Os> {
    seq![Os::LinuxAny]
}

/// An app is compatible with `os` iff a declared tag supports it.
pub open spec fn app_compatible(k: AppBuilders, os: Os) -> bool {
    exists|i: int|
        0 <= i < app_supported_os(k).len() && os_compatible(#[trigger] app_supported_os(k)[i], os)
}

/// The registration order of the apps.
pub open spec fn app_order() -> Seq<AppBuilders> {
    seq![
        AppBuilders::LsBuilder,
        AppBuilders::UnameBuilder,
        AppBuilders::WgetBuilder,
        AppBuilders::TouchBuilder,
        AppBuilders::ShBuilder,
    ]
}

/// The program an app runs with each input.
pub open spec fn app_program(k: AppBuilders) -> Seq<char> {
    match k {
        AppBuilders::LsBuilder => "/bin/ls"@,
        AppBuilders::ShBuilder => "/bin/sh"@,
        AppBuilders::TouchBuilder => "/bin/touch"@,
        AppBuilders::UnameBuilder => "/bin/uname"@,
        AppBuilders::WgetBuilder => "/usr/bin/wget"@,
    }
}

/// Whether the input is of the shape that the app takes.
pub open spec fn input_fits(k: AppBuilders, input: AppInput) -> bool {
    match k {
        AppBuilders::LsBuilder => input is Ls,
        AppBuilders::ShBuilder => input is Sh,
        AppBuilders::TouchBuilder => input is Touch,
        AppBuilders::UnameBuilder => input is Uname,
        AppBuilders::WgetBuilder => input is Wget,
    }
}

pub open spec fn strings_view(v: Seq<String>) -> Seq<Seq<char>> {
    v.map_values(|s: String| s@)
}

pub open spec fn flag_if(b: Option<bool>, flag: Seq<char>) -> Seq<Seq<char>> {
    if b == Some(true) {
        seq![flag]
    } else {
        Seq::empty()
    }
}

pub open spec fn pair_if(o: Option<String>, flag: Seq<char>) -> Seq<Seq<char>> {
    match o {
        Some(v) => seq![flag, v@],
        None => Seq::empty(),
    }
}

/// Arguments of `ls`: the chosen flags, then the path.
pub open spec fn ls_args(i: LsInput) -> Seq<Seq<char>> {
    flag_if(i.all, "-a"@) + flag_if(i.list, "-l"@) + flag_if(i.human_readable, "-h"@) + flag_if(
        i.classify,
        "-F"@,
    ) + seq![i.path@]
}

/// Arguments of `wget`: credentials, output file, certificate switch, url.
pub open spec fn wget_args(i: WgetInput) -> Seq<Seq<char>> {
    pair_if(i.user, "--user"@) + pair_if(i.password, "--password"@) + pair_if(i.output, "-O"@)
        + flag_if(i.no_check_certificates, "--no-check-certificate"@) + seq![i.url@]
}

/// The argument list an app passes to its program for `input`.
pub open spec fn app_args(input: AppInput) -> Seq<Seq<char>> {
    match input {
        AppInput::Ls(i) => ls_args(i),
        AppInput::Sh(i) => seq!["-c"@, i.command@],
        AppInput::Touch(i) => seq![i.path@],
        AppInput::Uname => seq!["-a"@],
        AppInput::Wget(i) => wget_args(i),
    }
}

fn push_str(v: &mut Vec<String>, s: &str)
    ensures
        strings_view(final(v)@) == strings_view(old(v)@).push(s@),
{
    let ghost before = v@;
    v.push(s.to_string());
    proof {
        assert(strings_view(v@) =~= strings_view(before).push(s@));
    }
}

fn push_flag(v: &mut Vec<String>, b: Option<bool>, flag: &str)
    ensures
        strings_view(final(v)@) == strings_view(old(v)@) + flag_if(b, flag@),
{
    if b == Some(true) {
        push_str(v, flag);
    } else {
        assert(strings_view(v@) =~= strings_view(v@) + flag_if(b, flag@));
    }
}

fn push_pair(v: &mut Vec<String>, o: &Option<String>, flag: &str)
    ensures
        strings_view(final(v)@) == strings_view(old(v)@) + pair_if(*o, flag@),
{
    match o {
        Some(x) => {
            let ghost before = strings_view(v@);
            push_str(v, flag);
            push_str(v, x.as_str());
            assert(strings_view(v@) =~= before + pair_if(*o, flag@));
        },
        None => {
            assert(strings_view(v@) =~= strings_view(v@) + pair_if(*o, flag@));
        },
    }
}

/// The arguments of `ls` for the given input.
pub fn ls_arguments(input: &LsInput) -> (r: Vec<String>)
    ensures
        strings_view(r@) == ls_args(*input),
{
    let mut r: Vec<String> = Vec::new();
    assert(strings_view(r@) =~= Seq::empty());
    push_flag(&mut r, input.all, "-a");
    push_flag(&mut r, input.list, "-l");
    push_flag(&mut r, input.human_readable, "-h");
    push_flag(&mut r, input.classify, "-F");
    push_str(&mut r, input.path.as_str());
    assert(strings_view(r@) =~= ls_args(*input));
    r
}

/// The arguments of `wget` for the given input.
pub fn wget_arguments(input: &WgetInput) -> (r: Vec<String>)
    ensures
        strings_view(r@) == wget_args(*input),
{
    let mut r: Vec<String> = Vec::new();
    assert(strings_view(r@) =~= Seq::empty());
    push_pair(&mut r, &input.user, "--user");
    push_pair(&mut r, &input.password, "--password");
    push_pair(&mut r, &input.output, "-O");
    push_flag(&mut r, input.no_check_certificates, "--no-check-certificate");
    push_str(&mut r, input.url.as_str());
    assert(strings_view(r@) =~= wget_args(*input));
    r
}

/// The arguments of `sh`: the command, run by `-c`.
pub fn sh_arguments(input: &ShInput) -> (r: Vec<String>)
    ensures
        strings_view(r@) == seq!["-c"@, input.command@],
{
    let mut r: Vec<String> = Vec::new();
    assert(strings_view(r@) =~= Seq::empty());
    push_str(&mut r, "-c");
    push_str(&mut r, input.command.as_str());
    assert(strings_view(r@) =~= seq!["-c"@, input.command@]);
    r
}

impl AppBuilders {
    pub fn name(&self) -> (r: &'static str)
        ensures
            r@ == app_name(*self),
    {
        match self {
            AppBuilders::LsBuilder => "ls",
            AppBuilders::ShBuilder => "sh",
            AppBuilders::TouchBuilder => "touch",
            AppBuilders::UnameBuilder => "uname",
            AppBuilders::WgetBuilder => "wget",
        }
    }

    pub fn description(&self) -> (r: &'static str)
        ensures
            r@ == app_description(*self),
    {
        match self {
            AppBuilders::LsBuilder => "Use ls to list directory and files.",
            AppBuilders::ShBuilder => "Shell",
            AppBuilders::TouchBuilder => "Touch command",
            AppBuilders::UnameBuilder => "operating system information. currently -a supported",
            AppBuilders::WgetBuilder => "Wget with limited function.",
        }
    }

    pub fn supported_os(&self) -> (r: Vec<Os>)
        ensures
            r@ == app_supported_os(*self),
    {
        let r = vec![Os::LinuxAny];
        assert(r@ =~= seq![Os::LinuxAny]);
        r
    }

    /// Whether any declared tag supports the target's tag.
    pub fn compatible(&self, os: &Os) -> (r: bool)
        ensures
            r == app_compatible(*self, *os),
    {
        let tags = self.supported_os();
        let r = crate::files::compatible_with_any(tags.as_slice(), os);
        proof {
            if r {
                let i = choose|i: int| 0 <= i < tags@.len() && os_compatible(tags@[i], *os);
                assert(os_compatible(app_supported_os(*self)[i], *os));
            }
        }
        r
    }

    /// The program this app runs.
    pub fn program(&self) -> (r: &'static str)
        ensures
            r@ == app_program(*self),
    {
        match self {
            AppBuilders::LsBuilder => "/bin/ls",
            AppBuilders::ShBuilder => "/bin/sh",
            AppBuilders::TouchBuilder => "/bin/touch",
            AppBuilders::UnameBuilder => "/bin/uname",
            AppBuilders::WgetBuilder => "/usr/bin/wget",
        }
    }

    /// The argument list for `input`, or a deserialize error when the input
    /// is not of the shape this app takes.
    pub fn arguments(&self, input: &AppInput) -> (r: Result<Vec<String>, Erro>)
        ensures
            input_fits(*self, *input) <==> r is Ok,
            r matches Ok(v) ==> strings_view(v@) == app_args(*input),
            r matches Err(e) ==> e is Deserialize,
    {
        match (self, input) {
            (AppBuilders::LsBuilder, AppInput::Ls(i)) => Ok(ls_arguments(i)),
            (AppBuilders::ShBuilder, AppInput::Sh(i)) => Ok(sh_arguments(i)),
            (AppBuilders::TouchBuilder, AppInput::Touch(i)) => {
                let mut r: Vec<String> = Vec::new();
                assert(strings_view(r@) =~= Seq::empty());
                push_str(&mut r, i.path.as_str());
                assert(strings_view(r@) =~= seq![i.path@]);
                Ok(r)
            },
            (AppBuilders::UnameBuilder, AppInput::Uname) => {
                let mut r: Vec<String> = Vec::new();
                assert(strings_view(r@) =~= Seq::empty());
                push_str(&mut r, UnameOptions::All.value());
                assert(strings_view(r@) =~= seq!["-a"@]);
                Ok(r)
            },
            (AppBuilders::WgetBuilder, AppInput::Wget(i)) => Ok(wget_arguments(i)),
            _ => Err(Erro::Deserialize(self.name().to_string())),
        }
    }
}


pub(crate) fn leaf(kind: &str, name: &str) -> (r: DescriptionField)
    ensures
        r.kind@ == kind@,
        r.name@ == name@,
        r.fields@.len() == 0,
{
    let empty = String::new();
    DescriptionField::new(kind, name, empty.as_str(), Vec::new())
}

pub(crate) fn optional_field(kind: &str, name: &str) -> (r: DescriptionField)
    ensures
        r.kind@ == "optional"@,
        r.name@ == name@,
        r.fields@.len() == 1,
{
    let empty = String::new();
    let inner = DescriptionField::new(kind, kind, empty.as_str(), Vec::new());
    let fields = vec![inner];
    DescriptionField::new("optional", name, "use eventually fields", fields)
}

pub(crate) fn record(kind: &str, fields: Vec<DescriptionField>) -> (r: DescriptionField)
    ensures
        r.kind@ == kind@,
        r.name@ == kind@,
        r.fields@ == fields@,
{
    let empty = String::new();
    DescriptionField::new(kind, kind, empty.as_str(), fields)
}

/// A documented use of an app: what it does, and its input and output as
/// JSON text.
pub struct AppExample {
    pub description: &'static str,
    pub input: &'static str,
    pub output: &'static str,
}

/// The description of the one documented example of each app.
pub open spec fn app_example_description(k: AppBuilders) -> Seq<char> {
    match k {
        AppBuilders::LsBuilder => "Show files human readable with details."@,
        AppBuilders::ShBuilder => "Run command"@,
        AppBuilders::TouchBuilder => "Run command"@,
        AppBuilders::UnameBuilder => "get linux kernel information"@,
        AppBuilders::WgetBuilder => "Download a file to /tmp"@,
    }
}

/// Everything a user needs to call an app: identity, declared support,
/// whether it supports the target, and its input and output schema.
pub struct AppHelp {
    pub name: &'static str,
    pub description: &'static str,
    pub compatible: bool,
    pub supported_os: Vec<Os>,
    pub input: DescriptionField,
    pub output: DescriptionField,
    pub examples: Vec<AppExample>,
}

/// The schema kind of an app's input.
pub open spec fn app_input_kind(k: AppBuilders) -> Seq<char> {
    match k {
        AppBuilders::LsBuilder => "LsInput"@,
        AppBuilders::ShBuilder => "ShInput"@,
        AppBuilders::TouchBuilder => "TouchInput"@,
        AppBuilders::UnameBuilder => "empty"@,
        AppBuilders::WgetBuilder => "WgetInput"@,
    }
}

/// The schema kind of an app's output.
pub open spec fn app_output_kind(k: AppBuilders) -> Seq<char> {
    match k {
        AppBuilders::LsBuilder => "array"@,
        AppBuilders::ShBuilder => "String"@,
        AppBuilders::TouchBuilder => "empty"@,
        AppBuilders::UnameBuilder => "Uname"@,
        AppBuilders::WgetBuilder => "empty"@,
    }
}

impl AppBuilders {
    /// The schema of the app's input.
    pub fn input(&self) -> (r: DescriptionField)
        ensures
            r.kind@ == app_input_kind(*self),
    {
        match self {
            AppBuilders::LsBuilder => record(
                "LsInput",
                vec![
                    optional_field("bool", "list"),
                    optional_field("bool", "all"),
                    optional_field("bool", "human_readable"),
                    optional_field("bool", "classify"),
                    leaf("String", "path"),
                ],
            ),
            AppBuilders::ShBuilder => record("ShInput", vec![leaf("String", "command")]),
            AppBuilders::TouchBuilder => record("TouchInput", vec![leaf("String", "path")]),
            AppBuilders::UnameBuilder => leaf("empty", "empty"),
            AppBuilders::WgetBuilder => record(
                "WgetInput",
                vec![
                    optional_field("String", "output"),
                    optional_field("String", "user"),
                    optional_field("String", "password"),
                    optional_field("bool", "no_check_certificates"),
                    leaf("String", "url"),
                ],
            ),
        }
    }

    /// The schema of the app's output.
    pub fn output(&self) -> (r: DescriptionField)
        ensures
            r.kind@ == app_output_kind(*self),
    {
        match self {
            AppBuilders::LsBuilder => {
                let entry = record(
                    "LsEntry",
                    vec![
                        leaf("String", "filename"),
                        optional_field("String", "size"),
                        optional_field("String", "permissions"),
                    ],
                );
                DescriptionField::array(entry)
            },
            AppBuilders::ShBuilder => leaf("String", "String"),
            AppBuilders::TouchBuilder => leaf("empty", "empty"),
            AppBuilders::UnameBuilder => record(
                "Uname",
                vec![
                    leaf("String", "kernel_name"),
                    leaf("String", "nodename"),
                    leaf("String", "kernel_release"),
                    leaf("String", "kernel_version"),
                    leaf("String", "machine"),
                    leaf("String", "processor"),
                    leaf("String", "hardware_platform"),
                    leaf("String", "operating_system"),
                ],
            ),
            AppBuilders::WgetBuilder => leaf("empty", "empty"),
        }
    }

    /// Documented uses of the app.
    pub fn examples(&self) -> (r: Vec<AppExample>)
        ensures
            r@.len() == 1,
            r@[0].description@ == app_example_description(*self),
    {
        match self {
            AppBuilders::LsBuilder => vec![AppExample { description: "Show files human readable with details.", input: "{\"list\":true,\"all\":false,\"human_readable\":true,\"classify\":null,\"path\":\"/etc\"}", output: "[{\"filename\":\"database.db\",\"size\":\"1235 Mb\",\"permissions\":\"rw-------\"}]" }],
            AppBuilders::ShBuilder => vec![AppExample { description: "Run command", input: "{\"command\":\"whoami\"}", output: "\"root\\n\"" }],
            AppBuilders::TouchBuilder => vec![AppExample { description: "Run command", input: "{\"path\":\"/tmp/file.txt\"}", output: "null" }],
            AppBuilders::UnameBuilder => vec![AppExample { description: "get linux kernel information", input: "\"\"", output: "{\"kernel_name\":\"Linux\",\"nodename\":\"felix-VirtualBox\",\"kernel_release\":\"5.15.0-78-generic\",\"kernel_version\":\"#85~20.04.1-Ubuntu SMP Mon Jul 17 09:42:39 UTC 2023\",\"machine\":\"x86_64\",\"processor\":\"x86_64\",\"hardware_platform\":\"x86_64\",\"operating_system\":\"GNU/Linux\"}" }],
            AppBuilders::WgetBuilder => vec![AppExample { description: "Download a file to /tmp", input: "{\"output\":\"/tmp/index.html\",\"user\":null,\"password\":null,\"no_check_certificates\":null,\"url\":\"https://google.de\"}", output: "\"\"" }],
        }
    }

    /// The help bundle of the app for a target tagged `os`; no side effects.
    pub fn help(&self, os: &Os) -> (r: AppHelp)
        ensures
            r.name@ == app_name(*self),
            r.description@ == app_description(*self),
            r.compatible == app_compatible(*self, *os),
            r.examples@.len() == 1,
            r.examples@[0].description@ == app_example_description(*self),
            r.supported_os@ == app_supported_os(*self),
            r.input.kind@ == app_input_kind(*self),
            r.output.kind@ == app_output_kind(*self),
    {
        AppHelp {
            name: self.name(),
            description: self.description(),
            compatible: self.compatible(os),
            supported_os: self.supported_os(),
            input: self.input(),
            output: self.output(),
            examples: self.examples(),
        }
    }
}

/// The apps in registration order.
pub fn app_builders() -> (r: Vec<AppBuilders>)
    ensures
        r@ == app_order(),
{
    let r = vec![
        AppBuilders::LsBuilder,
        AppBuilders::UnameBuilder,
        AppBuilders::WgetBuilder,
        AppBuilders::TouchBuilder,
        AppBuilders::ShBuilder,
    ];
    assert(r@ =~= app_order());
    r
}

} // verus!
