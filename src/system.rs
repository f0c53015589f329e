use vstd::prelude::*;

use crate::apps::strings_view;
use crate::error::Erro;
use crate::os::{os_from_text, Os};
use crate::os_release::{last_value, release_lines, OsRelease};
use crate::text::{
    chars_of, contains, contains_spec, slice_of, starts_with, starts_with_spec, str_eq, string_of,
    trim_chars, trim_spec,
};
use crate::version::{parse_version, Version};

verus! {

/// Kinds of file system entries that `stat` reports.
#[derive(Clone, Copy, Debug, PartialEq, Eq, Structural)]
pub enum FileType {
    File,
    Directory,
    CharacterDevice,
    BlockDevice,
    NamedPipe,
    SymbolicLink,
    Socket,
}

impl FileType {
    pub fn is_file(&self) -> (r: bool)
        ensures
            r == (*self == FileType::File),
    {
        *self == FileType::File
    }

    pub fn is_directory(&self) -> (r: bool)
        ensures
            r == (*self == FileType::Directory),
    {
        *self == FileType::Directory
    }
}

/// The file type that `stat --printf %F` names, if it is one.
pub open spec fn file_type_of(s: Seq<char>) -> Option<FileType> {
    if s == "socket"@ {
        Some(FileType::Socket)
    } else if s == "directory"@ {
        Some(FileType::Directory)
    } else if s == "regular file"@ || s == "regular empty file"@ {
        Some(FileType::File)
    } else if s == "block special file"@ {
        Some(FileType::BlockDevice)
    } else if s == "symbolic link"@ {
        Some(FileType::SymbolicLink)
    } else if s == "character special file"@ {
        Some(FileType::CharacterDevice)
    } else if s == "fifo"@ {
        Some(FileType::NamedPipe)
    } else {
        None
    }
}

/// Reads the output of `stat --printf %F` for `path`.
pub fn file_type_from_stat(output: &str, path: &str) -> (r: Result<FileType, Erro>)
    ensures
        match file_type_of(output@) {
            Some(t) => r == Ok::<FileType, Erro>(t),
            None => r matches Err(Erro::FileTypeUnknown(p)) && p@ == path@,
        },
{
    if str_eq(output, "socket") {
        Ok(FileType::Socket)
    } else if str_eq(output, "directory") {
        Ok(FileType::Directory)
    } else if str_eq(output, "regular file") || str_eq(output, "regular empty file") {
        Ok(FileType::File)
    } else if str_eq(output, "block special file") {
        Ok(FileType::BlockDevice)
    } else if str_eq(output, "symbolic link") {
        Ok(FileType::SymbolicLink)
    } else if str_eq(output, "character special file") {
        Ok(FileType::CharacterDevice)
    } else if str_eq(output, "fifo") {
        Ok(FileType::NamedPipe)
    } else {
        Err(Erro::FileTypeUnknown(path.to_string()))
    }
}

/// What `test -e` reports: success means the path exists, exit code 1 means
/// it does not, anything else is passed on.
pub open spec fn exit_code_one(e: Erro) -> bool {
    (e matches Erro::RunUser(c, _) && c == 1) || (e matches Erro::RunSsh(c, _) && c == 1)
}

pub fn exist_from_test(result: Result<Vec<u8>, Erro>) -> (r: Result<bool, Erro>)
    ensures
        match result {
            Ok(_) => r == Ok::<bool, Erro>(true),
            Err(e) => if exit_code_one(e) {
                r == Ok::<bool, Erro>(false)
            } else {
                r == Err::<bool, Erro>(e)
            },
        },
{
    match result {
        Ok(_) => Ok(true),
        Err(Erro::RunUser(code, m)) => if code == 1 {
            Ok(false)
        } else {
            Err(Erro::RunUser(code, m))
        },
        Err(Erro::RunSsh(code, m)) => if code == 1 {
            Ok(false)
        } else {
            Err(Erro::RunSsh(code, m))
        },
        Err(e) => Err(e),
    }
}

/// A username and its secret.
pub struct Credential {
    username: String,
    password: String,
}

impl Credential {
    pub closed spec fn username_view(&self) -> Seq<char> {
        self.username@
    }

    pub closed spec fn password_view(&self) -> Seq<char> {
        self.password@
    }

    pub fn new(username: &str, password: &str) -> (r: Credential)
        ensures
            r.username_view() == username@,
            r.password_view() == password@,
    {
        Credential { username: username.to_string(), password: password.to_string() }
    }

    pub fn username(&self) -> (r: &str)
        ensures
            r@ == self.username_view(),
    {
        self.username.as_str()
    }

    pub fn password(&self) -> (r: &str)
        ensures
            r@ == self.password_view(),
    {
        self.password.as_str()
    }

    pub fn duplicate(&self) -> (r: Credential)
        ensures
            r.username_view() == self.username_view(),
            r.password_view() == self.password_view(),
    {
        Credential { username: self.username.clone(), password: self.password.clone() }
    }
}

/// What a remote run yields: its standard output on exit status 0, else
/// the status with its diagnostics.
pub fn ssh_outcome(exit_status: u32, stdout: String, stderr: String) -> (r: Result<String, Erro>)
    ensures
        exit_status == 0 ==> (r matches Ok(o) && o@ == stdout@),
        exit_status > 0 ==> (r matches Err(Erro::RunSsh(c, m)) && c == exit_status && m@
            == stderr@),
{
    if exit_status > 0 {
        Err(Erro::RunSsh(exit_status, stderr))
    } else {
        Ok(stdout)
    }
}

/// `s` between double quotes.
pub open spec fn quote(s: Seq<char>) -> Seq<char> {
    seq!['"'] + s + seq!['"']
}

/// Each item quoted, separated by single spaces.
pub open spec fn quoted_join(xs: Seq<Seq<char>>) -> Seq<char>
    decreases xs.len(),
{
    if xs.len() == 0 {
        Seq::empty()
    } else if xs.len() == 1 {
        quote(xs[0])
    } else {
        quoted_join(xs.drop_last()) + seq![' '] + quote(xs.last())
    }
}

/// Each item quoted and preceded by a space.
pub open spec fn quoted_tail(xs: Seq<Seq<char>>) -> Seq<char>
    decreases xs.len(),
{
    if xs.len() == 0 {
        Seq::empty()
    } else {
        quoted_tail(xs.drop_last()) + seq![' '] + quote(xs.last())
    }
}

/// Whether the `su` diagnostics, lowercased after trimming, report a wrong
/// password; or, read as they are, an unknown user; else the failure as it
/// is, with a leading password prompt cut off.
pub enum SuFailure {
    PasswordInvalid,
    UserInvalid,
    Failed(u32, Seq<char>),
}

pub open spec fn su_failure(code: u32, err: Seq<char>, folded_trimmed: Seq<char>, folded: Seq<
    char,
>) -> SuFailure {
    if contains_spec(folded_trimmed, "password: su: authentication failure"@) {
        SuFailure::PasswordInvalid
    } else if starts_with_spec(err, "su: user"@) && contains_spec(err, "does not exist"@) {
        SuFailure::UserInvalid
    } else if starts_with_spec(folded, "password: "@) && err.len() >= 10 {
        SuFailure::Failed(code, err.subrange(10, err.len() as int))
    } else {
        SuFailure::Failed(code, err)
    }
}

pub open spec fn su_error_is(r: Erro, f: SuFailure) -> bool {
    match f {
        SuFailure::PasswordInvalid => r == Erro::RunUserPasswordInvalid,
        SuFailure::UserInvalid => r == Erro::RunUserUserInvalid,
        SuFailure::Failed(code, msg) => r matches Erro::RunUser(c, m) && c == code && m@ == msg,
    }
}

/// The text in lower case, as Unicode defines it.
pub uninterp spec fn lowercase(s: Seq<char>) -> Seq<char>;

/// Relies on `str::to_lowercase`.
#[verifier::external_body]
fn lowercase_text(s: &str) -> (r: String)
    ensures
        r@ == lowercase(s@),
{
    s.to_lowercase()
}

/// Classifies a failed `su` run from its exit code, its diagnostics `err`,
/// and the lowercased forms of the trimmed and of the whole diagnostics.
pub fn classify_su_failure_folded(code: u32, err: &str, folded_trimmed: &str, folded: &str) -> (r:
    Erro)
    ensures
        su_error_is(r, su_failure(code, err@, folded_trimmed@, folded@)),
{
    let e = chars_of(err);
    let ft = chars_of(folded_trimmed);
    let f = chars_of(folded);
    let auth_failure = chars_of("password: su: authentication failure");
    let su_user = chars_of("su: user");
    let not_exist = chars_of("does not exist");
    let prompt = chars_of("password: ");
    if contains(ft.as_slice(), auth_failure.as_slice()) {
        return Erro::RunUserPasswordInvalid;
    }
    if starts_with(e.as_slice(), su_user.as_slice()) && contains(e.as_slice(), not_exist.as_slice()) {
        return Erro::RunUserUserInvalid;
    }
    if starts_with(f.as_slice(), prompt.as_slice()) && e.len() >= 10 {
        let rest = slice_of(e.as_slice(), 10, e.len());
        Erro::RunUser(code, string_of(rest.as_slice()))
    } else {
        Erro::RunUser(code, err.to_string())
    }
}

/// Classifies a failed `su` run: wrong password, unknown user, or the
/// failure with its exit code and message.
pub fn classify_su_failure(code: u32, err: &str) -> (r: Erro)
    ensures
        su_error_is(r, su_failure(code, err@, lowercase(trim_spec(err@)), lowercase(err@))),
{
    let ec = chars_of(err);
    let tc = trim_chars(ec.as_slice());
    let t = string_of(tc.as_slice());
    let ft = lowercase_text(t.as_str());
    let f = lowercase_text(err);
    classify_su_failure_folded(code, err, ft.as_str(), f.as_str())
}

fn extend(v: &mut Vec<char>, s: &[char])
    ensures
        final(v)@ == old(v)@ + s@,
{
    let mut i: usize = 0;
    let ghost start = v@;
    while i < s.len()
        invariant
            i <= s@.len(),
            v@ == start + s@.subrange(0, i as int),
        decreases s@.len() - i,
    {
        v.push(s[i]);
        assert(s@.subrange(0, i + 1) == s@.subrange(0, i as int).push(s@[i as int]));
        i = i + 1;
    }
    assert(s@.subrange(0, s@.len() as int) == s@);
}

fn push_quoted(v: &mut Vec<char>, s: &str)
    ensures
        final(v)@ == old(v)@ + quote(s@),
{
    let ghost start = v@;
    v.push('"');
    let c = chars_of(s);
    extend(v, c.as_slice());
    v.push('"');
    assert(v@ =~= start + quote(s@));
}

/// How `run_user` hands a program line to `su -c`: the program and its
/// arguments each quoted, space separated.
pub fn su_command_line(path: &str, arguments: &[String]) -> (r: String)
    ensures
        r@ == quoted_join(seq![path@] + strings_view(arguments@)),
{
    let mut v: Vec<char> = Vec::new();
    push_quoted(&mut v, path);
    proof {
        assert(seq![path@] + strings_view(arguments@.subrange(0, 0)) =~= seq![path@]);
        assert(v@ =~= quote(path@));
    }
    let mut i: usize = 0;
    while i < arguments.len()
        invariant
            i <= arguments@.len(),
            v@ == quoted_join(seq![path@] + strings_view(arguments@.subrange(0, i as int))),
        decreases arguments@.len() - i,
    {
        let ghost before = seq![path@] + strings_view(arguments@.subrange(0, i as int));
        v.push(' ');
        push_quoted(&mut v, arguments[i].as_str());
        proof {
            let after = seq![path@] + strings_view(arguments@.subrange(0, i + 1));
            assert(after.drop_last() =~= before);
            assert(after.last() == arguments@[i as int]@);
            assert(after.len() > 1);
        }
        i = i + 1;
    }
    proof {
        assert(arguments@.subrange(0, arguments@.len() as int) =~= arguments@);
    }
    string_of(v.as_slice())
}

/// The arguments of `su`: the user, `-c`, and the quoted program line.
pub fn su_arguments(username: &str, path: &str, arguments: &[String]) -> (r: Vec<String>)
    ensures
        strings_view(r@) == seq![username@, "-c"@, quoted_join(seq![path@] + strings_view(arguments@))],
{
    let line = su_command_line(path, arguments);
    let r = vec![username.to_string(), "-c".to_string(), line];
    assert(strings_view(r@) =~= seq![username@, "-c"@, quoted_join(seq![path@] + strings_view(arguments@))]);
    r
}

/// The command line sent over the remote shell: the program, then each
/// argument quoted, space separated.
pub fn ssh_command_line(path: &str, arguments: &[String]) -> (r: String)
    ensures
        r@ == path@ + quoted_tail(strings_view(arguments@)),
{
    let mut v = chars_of(path);
    proof {
        assert(strings_view(arguments@.subrange(0, 0)) =~= Seq::<Seq<char>>::empty());
        assert(v@ =~= path@ + quoted_tail(Seq::<Seq<char>>::empty()));
    }
    let mut i: usize = 0;
    while i < arguments.len()
        invariant
            i <= arguments@.len(),
            v@ == path@ + quoted_tail(strings_view(arguments@.subrange(0, i as int))),
        decreases arguments@.len() - i,
    {
        let ghost before = strings_view(arguments@.subrange(0, i as int));
        v.push(' ');
        push_quoted(&mut v, arguments[i].as_str());
        proof {
            let after = strings_view(arguments@.subrange(0, i + 1));
            assert(after.drop_last() =~= before);
            assert(v@ =~= path@ + quoted_tail(after));
        }
        i = i + 1;
    }
    proof {
        assert(arguments@.subrange(0, arguments@.len() as int) =~= arguments@);
    }
    string_of(v.as_slice())
}

/// The tag a host is detected as, from its kernel version text and, when
/// it could be read, its os-release text: the kernel must be Linux; a
/// release's id (or, for ubuntu and debian, its codename when given) names
/// the tag; with no release the host is `LinuxUnknown`.
pub open spec fn detected_os(version: Seq<char>, release: Option<Seq<char>>) -> Result<Os, Erro> {
    match parse_version(version) {
        Err(e) => Err(Erro::Version(e)),
        Ok(p) => if !contains_spec(p.version, "Linux"@) {
            Err(Erro::OsDetectionFailed)
        } else {
            match release {
                None => Ok(Os::LinuxUnknown),
                Some(t) => {
                    let lines = release_lines(t);
                    match (last_value(lines, "NAME"@), last_value(lines, "ID"@)) {
                        (None, _) => Err(Erro::OsRelease(crate::error::OsReleaseError::Name)),
                        (Some(_), None) => Err(Erro::OsRelease(crate::error::OsReleaseError::Id)),
                        (Some(_), Some(id)) => Ok(
                            if id == "ubuntu"@ || id == "debian"@ {
                                match last_value(lines, "VERSION_CODENAME"@) {
                                    Some(c) => os_from_text(c),
                                    None => os_from_text(id),
                                }
                            } else {
                                os_from_text(id)
                            },
                        ),
                    }
                },
            }
        },
    }
}

/// Detects the host's tag from the text of its kernel version file and of
/// its os-release file (`None` when that could not be read).
pub fn detect_os_from(version_text: &str, release_text: Option<&str>) -> (r: Result<Os, Erro>)
    ensures
        r == detected_os(version_text@, match release_text {
            Some(t) => Some(t@),
            None => None,
        }),
{
    let version = match Version::parse(version_text) {
        Ok(v) => v,
        Err(e) => return Err(e),
    };
    if !version.is_linux() {
        return Err(Erro::OsDetectionFailed);
    }
    match release_text {
        None => Ok(Os::LinuxUnknown),
        Some(t) => {
            let release = match OsRelease::try_from(t) {
                Ok(rel) => rel,
                Err(e) => return Err(e),
            };
            let id = release.id();
            if str_eq(id, "ubuntu") || str_eq(id, "debian") {
                match release.version_codename() {
                    Some(c) => Ok(Os::from_str(c)),
                    None => Ok(Os::from_str(id)),
                }
            } else {
                Ok(Os::from_str(id))
            }
        },
    }
}

/// An operation on the target, as one program run.
pub enum Operation {
    Read(String),
    Delete(String),
    FileType(String),
    Exist(String),
    VerifyCredential,
    MakeReadOnly(String),
    CopyInto(String, String),
}

/// The program and arguments that carry out an operation.
pub open spec fn operation_command(op: Operation) -> (Seq<char>, Seq<Seq<char>>) {
    match op {
        Operation::Read(p) => ("/bin/cat"@, seq![p@]),
        Operation::Delete(p) => ("/bin/unlink"@, seq![p@]),
        Operation::FileType(p) => ("/bin/stat"@, seq!["--printf"@, "%F"@, p@]),
        Operation::Exist(p) => ("/bin/test"@, seq!["-e"@, p@]),
        Operation::VerifyCredential => ("/bin/true"@, Seq::empty()),
        Operation::MakeReadOnly(p) => ("/bin/chmod"@, seq!["444"@, p@]),
        Operation::CopyInto(from, to) => (
            "/bin/cp"@,
            seq!["--no-preserve=mode,ownership"@, from@, to@],
        ),
    }
}

/// Which channel a call takes: the local become-user primitive, or the
/// remote shell.
#[derive(Clone, Copy, Debug, PartialEq, Eq, Structural)]
pub enum Channel {
    User,
    Ssh,
}

/// The local/remote shell backend of POSIX hosts.
pub struct Posix {
    credential: Credential,
    endpoint: Option<String>,
}

impl Posix {
    pub closed spec fn endpoint_view(&self) -> Option<Seq<char>> {
        crate::task::opt_view(self.endpoint)
    }

    pub closed spec fn credential_view(&self) -> Credential {
        self.credential
    }

    pub fn new(credential: Credential, endpoint: Option<String>) -> (r: Posix)
        ensures
            r.endpoint_view() == crate::task::opt_view(endpoint),
            r.credential_view() == credential,
    {
        Posix { credential, endpoint }
    }

    pub fn name() -> (r: &'static str)
        ensures
            r@ == "posix"@,
    {
        "posix"
    }

    pub fn su() -> (r: &'static str)
        ensures
            r@ == "/bin/su"@,
    {
        "/bin/su"
    }

    pub fn unlink() -> (r: &'static str)
        ensures
            r@ == "/bin/unlink"@,
    {
        "/bin/unlink"
    }

    pub fn stat() -> (r: &'static str)
        ensures
            r@ == "/bin/stat"@,
    {
        "/bin/stat"
    }

    pub fn true_bin() -> (r: &'static str)
        ensures
            r@ == "/bin/true"@,
    {
        "/bin/true"
    }

    pub fn cp() -> (r: &'static str)
        ensures
            r@ == "/bin/cp"@,
    {
        "/bin/cp"
    }

    pub fn cat() -> (r: &'static str)
        ensures
            r@ == "/bin/cat"@,
    {
        "/bin/cat"
    }

    pub fn chmod() -> (r: &'static str)
        ensures
            r@ == "/bin/chmod"@,
    {
        "/bin/chmod"
    }

    pub fn test() -> (r: &'static str)
        ensures
            r@ == "/bin/test"@,
    {
        "/bin/test"
    }

    /// The primitives a host must have: `stat` is run on each of them.
    pub fn required_executables() -> (r: Vec<String>)
        ensures
            strings_view(r@) == seq![
                "/bin/su"@,
                "/bin/unlink"@,
                "/bin/true"@,
                "/bin/cp"@,
                "/bin/cat"@,
                "/bin/chmod"@,
                "/bin/test"@,
            ],
    {
        let r = vec![
            Self::su().to_string(),
            Self::unlink().to_string(),
            Self::true_bin().to_string(),
            Self::cp().to_string(),
            Self::cat().to_string(),
            Self::chmod().to_string(),
            Self::test().to_string(),
        ];
        assert(strings_view(r@) =~= seq![
            "/bin/su"@,
            "/bin/unlink"@,
            "/bin/true"@,
            "/bin/cp"@,
            "/bin/cat"@,
            "/bin/chmod"@,
            "/bin/test"@,
        ]);
        r
    }

    /// A backend for the endpoint once probing the required primitives
    /// succeeded. A probe that ran and failed (some primitive is missing)
    /// makes the endpoint incompatible; any other failure (credentials,
    /// transport) is passed on.
    pub fn detect(credential: Credential, endpoint: Option<String>, probe: Result<Vec<u8>, Erro>) -> (r:
        Result<Posix, Erro>)
        ensures
            match probe {
                Ok(_) => r matches Ok(p) && p.endpoint_view() == crate::task::opt_view(endpoint)
                    && p.credential_view() == credential,
                Err(e) => if e is RunUser || e is RunSsh {
                    r == Err::<Posix, Erro>(Erro::EndpointIncompatible)
                } else {
                    r == Err::<Posix, Erro>(e)
                },
            },
    {
        match probe {
            Ok(_) => Ok(Posix::new(credential, endpoint)),
            Err(Erro::RunUser(_, _)) => Err(Erro::EndpointIncompatible),
            Err(Erro::RunSsh(_, _)) => Err(Erro::EndpointIncompatible),
            Err(e) => Err(e),
        }
    }

    pub fn endpoint(&self) -> (r: Option<&str>)
        ensures
            r matches Some(s) ==> self.endpoint_view() == Some(s@),
            r is None ==> self.endpoint_view() is None,
    {
        match &self.endpoint {
            Some(e) => Some(e.as_str()),
            None => None,
        }
    }

    pub fn credential(&self) -> (r: &Credential)
        ensures
            *r == self.credential_view(),
    {
        &self.credential
    }

    /// The endpoint, which remote calls need.
    pub fn endpoint_ok(&self) -> (r: Result<&str, Erro>)
        ensures
            r matches Ok(s) ==> self.endpoint_view() == Some(s@),
            r is Err <==> self.endpoint_view() is None,
            r matches Err(e) ==> e == Erro::EndpointMissing,
    {
        match &self.endpoint {
            Some(e) => Ok(e.as_str()),
            None => Err(Erro::EndpointMissing),
        }
    }

    /// Remote when an endpoint is set, local otherwise.
    pub fn channel(&self) -> (r: Channel)
        ensures
            (r == Channel::Ssh) == (self.endpoint_view() is Some),
    {
        match &self.endpoint {
            Some(_) => Channel::Ssh,
            None => Channel::User,
        }
    }

    /// The program and arguments of an operation.
    pub fn command(op: &Operation) -> (r: (&'static str, Vec<String>))
        ensures
            r.0@ == operation_command(*op).0,
            strings_view(r.1@) == operation_command(*op).1,
    {
        let (program, args): (&'static str, Vec<String>) = match op {
            Operation::Read(p) => (Self::cat(), vec![p.clone()]),
            Operation::Delete(p) => (Self::unlink(), vec![p.clone()]),
            Operation::FileType(p) => (Self::stat(), vec!["--printf".to_string(), "%F".to_string(), p.clone()]),
            Operation::Exist(p) => (Self::test(), vec!["-e".to_string(), p.clone()]),
            Operation::VerifyCredential => (Self::true_bin(), Vec::new()),
            Operation::MakeReadOnly(p) => (Self::chmod(), vec!["444".to_string(), p.clone()]),
            Operation::CopyInto(from, to) => (
                Self::cp(),
                vec!["--no-preserve=mode,ownership".to_string(), from.clone(), to.clone()],
            ),
        };
        assert(strings_view(args@) =~= operation_command(*op).1);
        (program, args)
    }
}

/// Available platforms.
pub enum Platform {
    Posix(Posix),
}

/// One resolved backend and the host's tag, which is set at most once.
pub struct System {
    platform: Platform,
    os: Option<Os>,
}

impl System {
    pub closed spec fn os_view(&self) -> Option<Os> {
        self.os
    }

    pub closed spec fn posix_view(&self) -> Posix {
        match self.platform {
            Platform::Posix(p) => p,
        }
    }

    pub fn new(platform: Platform, os: Option<Os>) -> (r: System)
        ensures
            r.os_view() == os,
            r.posix_view() == match platform {
                Platform::Posix(p) => p,
            },
    {
        System { platform, os }
    }

    /// The detected tag; fails until detection has run.
    pub fn os(&self) -> (r: Result<Os, Erro>)
        ensures
            match self.os_view() {
                Some(o) => r == Ok::<Os, Erro>(o),
                None => r == Err::<Os, Erro>(Erro::OsDetection),
            },
    {
        match self.os {
            Some(o) => Ok(o),
            None => Err(Erro::OsDetection),
        }
    }

    /// Records the detected tag, unless one is already recorded; returns the
    /// recorded tag.
    pub fn record_os(&mut self, os: Os) -> (r: Os)
        ensures
            final(self).posix_view() == old(self).posix_view(),
            final(self).os_view() == Some(r),
            r == match old(self).os_view() {
                Some(o) => o,
                None => os,
            },
    {
        match self.os {
            Some(o) => o,
            None => {
                self.os = Some(os);
                os
            },
        }
    }

    pub fn posix(&self) -> (r: &Posix)
        ensures
            *r == self.posix_view(),
    {
        match &self.platform {
            Platform::Posix(p) => p,
        }
    }

    /// The channel that calls on this system take.
    pub fn channel(&self) -> (r: Channel)
        ensures
            (r == Channel::Ssh) == (self.posix_view().endpoint_view() is Some),
    {
        self.posix().channel()
    }
}

/// Resolves the one System of an endpoint lazily and keeps it.
pub struct SystemManager {
    system: Option<System>,
    endpoint: Option<String>,
}

impl SystemManager {
    pub closed spec fn cached_view(&self) -> Option<System> {
        self.system
    }

    pub closed spec fn endpoint_view(&self) -> Option<Seq<char>> {
        crate::task::opt_view(self.endpoint)
    }

    pub fn new(endpoint: Option<&str>) -> (r: SystemManager)
        ensures
            r.cached_view() is None,
            r.endpoint_view() == match endpoint {
                Some(e) => Some(e@),
                None => None,
            },
    {
        SystemManager {
            system: None,
            endpoint: match endpoint {
                Some(e) => Some(e.to_string()),
                None => None,
            },
        }
    }

    pub fn endpoint(&self) -> (r: Option<&str>)
        ensures
            r matches Some(s) ==> self.endpoint_view() == Some(s@),
            r is None ==> self.endpoint_view() is None,
    {
        match &self.endpoint {
            Some(e) => Some(e.as_str()),
            None => None,
        }
    }

    /// The system resolved earlier, if any.
    pub fn system(&self) -> (r: Option<&System>)
        ensures
            r matches Some(s) ==> self.cached_view() == Some(*s),
            r is None ==> self.cached_view() is None,
    {
        match &self.system {
            Some(s) => Some(s),
            None => None,
        }
    }

    /// Keeps `system` as the resolved one, unless one is kept already: the
    /// first resolved system stays for the manager's lifetime.
    pub fn install(&mut self, system: System) -> (r: &System)
        ensures
            final(self).endpoint_view() == old(self).endpoint_view(),
            final(self).cached_view() == Some(match old(self).cached_view() {
                Some(s) => s,
                None => system,
            }),
            final(self).cached_view() == Some(*r),
    {
        if self.system.is_none() {
            self.system = Some(system);
        }
        self.system.as_ref().unwrap()
    }
}

} // verus!
