use boofi::apps::{
    parse_listing, sh_arguments, wget_arguments, AppBuilders, AppInput, DirItem, LsBuilder, LsEntry, LsInput, ShInput, TouchInput, Uname, UnameOptions, WgetInput,
};
use boofi::auth::AuthController;
use boofi::controller::Controller;
use boofi::error::{Capability, Erro, FileError, OsReleaseError, PasswdError, VersionError};
use boofi::files::{FileBuilders, FileMatchPattern};
use boofi::os::Os;
use boofi::os_release::OsRelease;
use boofi::passwd::{Passwd, PasswdEntry};
use boofi::system::{
    classify_su_failure, classify_su_failure_folded, detect_os_from, exist_from_test,
    file_type_from_stat, ssh_command_line, su_arguments, su_command_line, Channel, Credential,
    FileType, Operation, Platform, Posix, System, SystemManager,
};
use boofi::task::{TaskController, TaskStatus};
use boofi::version::Version;

const KERNEL: &str = "Linux version 5.15.0-76-generic (buildd@lcy02-amd64-019) (gcc (Ubuntu 9.4.0-1ubuntu1~20.04.1) 9.4.0, GNU ld (GNU Binutils for Ubuntu) 2.34) #83~20.04.1-Ubuntu SMP Wed Jun 21 20:23:31 UTC 2023\n";

fn local_system(os: Option<Os>) -> System {
    System::new(Platform::Posix(Posix::new(Credential::new("dev", "secret"), None)), os)
}

// ---- platform tags

#[test]
fn os_parse_names() {
    assert_eq!(Os::from_str("linux"), Os::LinuxAny);
    assert_eq!(Os::from_str("focal"), Os::LinuxUbuntuFocal);
    assert_eq!(Os::from_str("luna"), Os::LinuxUbuntuLuna);
    assert_eq!(Os::from_str("bionic"), Os::LinuxUbuntuBionic);
    assert_eq!(Os::from_str("bookworm"), Os::LinuxDebianBookworm);
    assert_eq!(Os::from_str("bullseye"), Os::LinuxDebianBullseye);
    assert_eq!(Os::from_str("buster"), Os::LinuxDebianBuster);
    assert_eq!(Os::from_str("ubuntu"), Os::Unknown);
    assert_eq!(Os::from_str(""), Os::Unknown);
    assert_eq!(Os::default(), Os::Unknown);
}

#[test]
fn os_lattice_identity_and_asymmetry() {
    let all = [
        Os::Unknown, Os::LinuxUnknown, Os::LinuxAny, Os::LinuxArchlinux, Os::LinuxFedora,
        Os::LinuxOpenSusLeap, Os::LinuxUbuntu, Os::LinuxUbuntuLuna, Os::LinuxUbuntuFocal,
        Os::LinuxUbuntuBionic, Os::LinuxDebian, Os::LinuxDebianBookworm,
        Os::LinuxDebianBullseye, Os::LinuxDebianBuster,
    ];
    for a in all.iter() {
        assert!(a.compatible(a));
    }
    assert!(Os::LinuxAny.compatible(&Os::LinuxFedora));
    assert!(!Os::LinuxFedora.compatible(&Os::LinuxAny));
    assert!(Os::LinuxDebian.compatible(&Os::LinuxDebianBuster));
    assert!(!Os::LinuxDebianBuster.compatible(&Os::LinuxDebian));
    assert!(!Os::LinuxAny.compatible(&Os::LinuxUnknown));
    assert!(!Os::LinuxAny.compatible(&Os::Unknown));
    assert!(!Os::LinuxUbuntu.compatible(&Os::LinuxDebian));
}

// ---- tokens

#[test]
fn token_shape() {
    let mut auth = AuthController::new(60);
    let a = auth.insert_or_replace("alice".into(), "pw".into(), 0);
    let b = auth.insert_or_replace("bob".into(), "pw".into(), 0);
    assert_eq!(a.chars().count(), 16);
    assert!(a.chars().all(|c| c.is_ascii_alphanumeric()));
    assert_ne!(a, b);
}

#[test]
fn token_lifetime() {
    let mut auth = AuthController::new(60);
    let token = auth.insert_or_replace("user".into(), "pass".into(), 1000);
    let found = auth.get(&token, 1059).unwrap();
    assert_eq!(found.username(), "user");
    assert_eq!(found.password(), "pass");
    assert_eq!(found.token(), token.as_str());
    assert_eq!(auth.get(&token, 1060).err(), Some(Erro::AuthTokenExpired));
    assert_eq!(auth.get("nothing", 1000).err(), Some(Erro::AuthNotFound));
}

#[test]
fn token_rotation_forgets_old() {
    let mut auth = AuthController::new(60);
    let first = auth.insert_or_replace("user".into(), "pass".into(), 1000);
    let second = auth.insert_or_replace("user".into(), "new".into(), 2000);
    assert_ne!(first, second);
    assert_eq!(auth.get(&first, 2001).err(), Some(Erro::AuthNotFound));
    let found = auth.get(&second, 2059).unwrap();
    assert_eq!(found.password(), "new");
}

#[test]
fn token_delete_idempotent() {
    let mut auth = AuthController::new(60);
    let t = auth.insert_or_replace("a".into(), "p".into(), 0);
    let u = auth.insert_or_replace("b".into(), "p".into(), 0);
    assert!(auth.delete(&t));
    assert!(!auth.delete(&t));
    assert!(auth.get(&u, 1).is_ok());
}

// ---- task ledger

#[test]
fn ledger_numbers_and_states() {
    let mut tasks = TaskController::default();
    let t1 = tasks.new_task("ls".into(), "{\"path\":\"/\"}".into()).unwrap();
    assert_eq!(t1.id(), 1);
    assert_eq!(t1.status(), TaskStatus::Created);
    assert_eq!(t1.app_name(), "ls");
    assert_eq!(t1.app_input(), "{\"path\":\"/\"}");
    assert_eq!(t1.app_output(), None);
    let t2 = tasks.new_task("sh".into(), "{}".into()).unwrap();
    assert_eq!(t2.id(), 2);

    assert_eq!(tasks.start(2), Ok(()));
    assert_eq!(tasks.start(1), Ok(()));
    assert_eq!(tasks.finish(2, Err("Deserialize(\"missing field\")".into())), Ok(()));
    assert_eq!(tasks.finish(1, Ok("[]".into())), Ok(()));

    let done = tasks.get(1).unwrap();
    assert_eq!(done.status(), TaskStatus::Finished);
    assert_eq!(done.app_output(), Some("[]"));
    assert_eq!(done.app_error(), None);
    let failed = tasks.get(2).unwrap();
    assert_eq!(failed.status(), TaskStatus::Failed);
    assert_eq!(failed.app_output(), None);
    assert!(!failed.app_error().unwrap().is_empty());

    // terminal states stay
    assert_eq!(tasks.start(1), Err(Erro::TaskInvalidIndex));
    assert_eq!(tasks.finish(1, Err("late".into())), Err(Erro::TaskInvalidIndex));
    assert_eq!(tasks.get(1).unwrap().status(), TaskStatus::Finished);

    assert_eq!(tasks.get(3).err(), Some(Erro::TaskNotFound));
    assert_eq!(tasks.start(0), Err(Erro::TaskNotFound));
    let ids: Vec<usize> = tasks.tasks().iter().map(|t| t.id()).collect();
    assert_eq!(ids, vec![1, 2]);
}

#[test]
fn sh_echo_round_trip() {
    // synchronous: the plan that is handed to the shell
    let args = sh_arguments(&ShInput { command: "echo hi".into() });
    assert_eq!(args, vec!["-c".to_string(), "echo hi".to_string()]);
    assert_eq!(AppBuilders::ShBuilder.program(), "/bin/sh");
    // asynchronous: created first, finished with the output later
    let mut tasks = TaskController::default();
    let t = tasks.new_task("sh".into(), "{\"command\":\"echo hi\"}".into()).unwrap();
    assert_eq!(t.status(), TaskStatus::Created);
    tasks.start(t.id()).unwrap();
    tasks.finish(t.id(), Ok("hi\n".into())).unwrap();
    let polled = tasks.get(t.id()).unwrap();
    assert_eq!(polled.status(), TaskStatus::Finished);
    assert_eq!(polled.app_output(), Some("hi\n"));
}

// ---- dispatch

#[test]
fn resolve_first_registered_match() {
    let c = Controller::new(60, None);
    assert_eq!(c.resolve_by_path("/proc/version", &Os::LinuxAny), Ok(FileBuilders::VersionBuilder));
    assert_eq!(c.resolve_by_path("/etc/passwd", &Os::LinuxUbuntuFocal), Ok(FileBuilders::PasswdBuilder));
    assert_eq!(c.resolve_by_path("/tmp/a.json", &Os::LinuxAny), Ok(FileBuilders::JsonBuilder));
    assert_eq!(c.resolve_by_path("/tmp/b.yml", &Os::LinuxAny), Ok(FileBuilders::YamlBuilder));
    assert_eq!(c.resolve_by_path("/etc/cron.d/job", &Os::LinuxAny), Ok(FileBuilders::CrontabBuilder));
    assert_eq!(c.resolve_by_path("/tmp/notes", &Os::LinuxAny), Ok(FileBuilders::TextBuilder));
    // os-release is declared for ubuntu only
    assert_eq!(c.resolve_by_path("/etc/os-release", &Os::LinuxAny), Ok(FileBuilders::OsReleaseBuilder));
    assert_eq!(c.resolve_by_path("/etc/os-release", &Os::LinuxDebian), Ok(FileBuilders::TextBuilder));
}

#[test]
fn resolve_unmatched() {
    let c = Controller::new(60, None);
    assert_eq!(
        c.resolve_by_path("/proc/version", &Os::Unknown),
        Err(Erro::FilesNotMatchedByPattern("/proc/version".into()))
    );
    let sys = local_system(None);
    assert_eq!(c.file_builders_by_match("/proc/version", &sys), Err(Erro::OsDetection));
    let sys = local_system(Some(Os::LinuxAny));
    assert_eq!(c.file_builders_by_match("/proc/uptime", &sys), Ok(FileBuilders::UptimeBuilder));
}

#[test]
fn lookup_by_name() {
    let c = Controller::new(60, Some("127.0.0.1:22"));
    assert_eq!(c.file_builders_by_name("cronjob"), Ok(FileBuilders::CrontabBuilder));
    assert_eq!(c.file_builders_by_name("os-release"), Ok(FileBuilders::OsReleaseBuilder));
    assert_eq!(c.file_builders_by_name("nope"), Err(Erro::FilesNotMatchedByName("nope".into())));
    assert_eq!(c.app("uname"), Some(AppBuilders::UnameBuilder));
    assert_eq!(c.app("vi"), None);
    assert_eq!(c.runnable_app("sh", &Os::LinuxDebianBuster), Ok(AppBuilders::ShBuilder));
    assert_eq!(c.runnable_app("sh", &Os::Unknown), Err(Erro::AppIncompatible));
    assert_eq!(c.runnable_app("vi", &Os::LinuxAny), Err(Erro::AppNotFound));
    assert_eq!(c.file_builders().len(), 20);
    assert_eq!(c.apps().len(), 5);
}

#[test]
fn pattern_and_capabilities() {
    let p = FileMatchPattern::new_regex("^.*.(json|JSON)$", &[Os::LinuxAny]);
    assert!(p.is_match("/x/y.JSON", &Os::LinuxUbuntu));
    assert!(!p.is_match("/x/y.txt", &Os::LinuxUbuntu));
    assert!(!p.is_match("/x/y.json", &Os::Unknown));
    let bad = FileMatchPattern::new_regex("(", &[Os::LinuxAny]);
    assert!(!bad.is_match("(", &Os::LinuxAny));
    let exact = FileMatchPattern::new_path("/etc/hosts", &[Os::LinuxAny]);
    assert!(exact.is_match("/etc/hosts", &Os::LinuxAny));
    assert!(!exact.is_match("/etc/hosts2", &Os::LinuxAny));
    assert_eq!(FileBuilders::PasswdBuilder.capable(Capability::Write), Ok(()));
    assert_eq!(
        FileBuilders::UptimeBuilder.capable(Capability::Write),
        Err(Erro::File(FileError::NotCapable(Capability::Write)))
    );
    assert_eq!(FileBuilders::UptimeBuilder.name(), "uptime");
}

// ---- apps

#[test]
fn app_argument_plans() {
    let ls = LsInput::new(Some(true), Some(true), None, Some(false), "/tmp".into());
    let args = AppBuilders::LsBuilder.arguments(&AppInput::Ls(ls)).unwrap();
    assert_eq!(args, vec!["-a", "-l", "/tmp"]);
    let w = WgetInput {
        output: Some("/tmp/out".into()),
        user: Some("u".into()),
        password: None,
        no_check_certificates: Some(true),
        url: "https://example.org/".into(),
    };
    assert_eq!(
        wget_arguments(&w),
        vec!["--user", "u", "-O", "/tmp/out", "--no-check-certificate", "https://example.org/"]
    );
    let t = AppBuilders::TouchBuilder.arguments(&AppInput::Touch(TouchInput { path: "/tmp/f".into() }));
    assert_eq!(t.unwrap(), vec!["/tmp/f"]);
    assert_eq!(AppBuilders::UnameBuilder.arguments(&AppInput::Uname).unwrap(), vec!["-a"]);
    assert!(matches!(AppBuilders::ShBuilder.arguments(&AppInput::Uname), Err(Erro::Deserialize(_))));
    assert_eq!(UnameOptions::All.value(), "-a");
    assert_eq!(Uname::executable(), "/bin/uname");
    assert_eq!(LsBuilder::path(), "/bin/ls");
    assert!(AppBuilders::WgetBuilder.compatible(&Os::LinuxArchlinux));
}

#[test]
fn ls_test_parse() {
    let input = LsInput::new(Some(true), Some(true), None, None, "/boot".into());
    let content = "total 8\ndrwxr-xr-x  5 root root     4096 Aug  1 10:00 grub\n-rw-r--r--  1 root root   262224 Jul 12 10:00 config-5.15.0-78-generic\nlrwxrwxrwx  1 root root       28 Aug  1 10:00 vmlinuz -> vmlinuz-5.15.0-78-generic\n";
    let entries = parse_listing(&input, content).unwrap();
    assert_eq!(entries.len(), 3);
    assert_eq!(entries[0], LsEntry { filename: "grub".into(), size: Some("4096".into()), permissions: Some("drwxr-xr-x".into()) });
    assert_eq!(entries[1].filename(), "config-5.15.0-78-generic");
    assert_eq!(entries[1].size(), Some("262224"));
    assert_eq!(entries[2].filename(), "vmlinuz -> vmlinuz-5.15.0-78-generic");
    assert_eq!(entries[2].permissions, Some("lrwxrwxrwx".to_string()));
    assert_eq!(parse_listing(&input, "total 0\nbroken line\n"), Err(Erro::LsLineInvalid));
}

#[test]
fn dir_items() {
    let e = LsEntry { filename: "grub/".into(), size: Some("4096".into()), permissions: None };
    let d = DirItem::try_from(&e).unwrap();
    assert_eq!(d.name(), "grub");
    assert!(d.directory());
    assert_eq!(d.size, 4096);
    let f = LsEntry { filename: "a".into(), size: None, permissions: None };
    assert_eq!(DirItem::try_from(&f), Err(Erro::DirFileSizeUnknown));
    let g = LsEntry { filename: "a".into(), size: Some("x1".into()), permissions: None };
    assert_eq!(DirItem::try_from(&g), Err(Erro::ParseInt));
}

// ---- transport decisions

#[test]
fn su_and_ssh_command_lines() {
    let args = vec!["-e".to_string(), "/tmp/x y".to_string()];
    assert_eq!(su_command_line("/bin/test", &args), "\"/bin/test\" \"-e\" \"/tmp/x y\"");
    assert_eq!(
        su_arguments("dev", "/bin/true", &[]),
        vec!["dev".to_string(), "-c".to_string(), "\"/bin/true\"".to_string()]
    );
    assert_eq!(ssh_command_line("/bin/test", &args), "/bin/test \"-e\" \"/tmp/x y\"");
    assert_eq!(ssh_command_line("/bin/true", &[]), "/bin/true");
}

#[test]
fn su_failure_classification() {
    assert_eq!(
        classify_su_failure(1, "Password: su: Authentication failure\n"),
        Erro::RunUserPasswordInvalid
    );
    assert_eq!(classify_su_failure(1, "su: user nobody2 does not exist\n"), Erro::RunUserUserInvalid);
    assert_eq!(
        classify_su_failure(2, "Password: cat: /x: No such file"),
        Erro::RunUser(2, "cat: /x: No such file".into())
    );
    assert_eq!(classify_su_failure(3, "boom"), Erro::RunUser(3, "boom".into()));
    assert_eq!(
        classify_su_failure_folded(1, "X", "password: su: authentication failure", "x"),
        Erro::RunUserPasswordInvalid
    );
}

#[test]
fn stat_and_test_results() {
    assert_eq!(file_type_from_stat("directory", "/etc"), Ok(FileType::Directory));
    assert_eq!(file_type_from_stat("regular empty file", "/a"), Ok(FileType::File));
    assert_eq!(file_type_from_stat("character special file", "/dev/null"), Ok(FileType::CharacterDevice));
    assert_eq!(file_type_from_stat("symbolic link", "/proc/self"), Ok(FileType::SymbolicLink));
    assert_eq!(file_type_from_stat("weird", "/w"), Err(Erro::FileTypeUnknown("/w".into())));
    assert!(FileType::File.is_file());
    assert!(FileType::Directory.is_directory());
    assert_eq!(exist_from_test(Ok(vec![])), Ok(true));
    assert_eq!(exist_from_test(Err(Erro::RunUser(1, "".into()))), Ok(false));
    assert_eq!(exist_from_test(Err(Erro::RunSsh(1, "".into()))), Ok(false));
    assert_eq!(exist_from_test(Err(Erro::RunSsh(2, "x".into()))), Err(Erro::RunSsh(2, "x".into())));
}

#[test]
fn os_detection() {
    assert_eq!(detect_os_from(KERNEL, None), Ok(Os::LinuxUnknown));
    assert_eq!(
        detect_os_from(KERNEL, Some("NAME=Ubuntu\nID=ubuntu\nVERSION_CODENAME=focal\n")),
        Ok(Os::LinuxUbuntuFocal)
    );
    assert_eq!(detect_os_from(KERNEL, Some("NAME=Debian\nID=debian\n")), Ok(Os::Unknown));
    assert_eq!(detect_os_from(KERNEL, Some("NAME=Arch\nID=arch\n")), Ok(Os::Unknown));
    assert_eq!(
        detect_os_from(KERNEL, Some("ID=ubuntu\n")),
        Err(Erro::OsRelease(OsReleaseError::Name))
    );
    assert_eq!(
        detect_os_from("FreeBSD version 13 (a@b) (cc) x", None),
        Err(Erro::OsDetectionFailed)
    );
    assert_eq!(detect_os_from("garbage", None), Err(Erro::Version(VersionError::Version)));
}

#[test]
fn version_errors() {
    assert_eq!(Version::parse("Linux x (nobody) (cc) y").err(), Some(Erro::Version(VersionError::CompiledBy)));
    assert_eq!(Version::parse("Linux x (a@b (cc) y").err(), Some(Erro::Version(VersionError::CompilerHost)));
    assert_eq!(Version::parse("Linux x (a@b) (cc").err(), Some(Erro::Version(VersionError::Compiler)));
    assert!(Version::parse(KERNEL).unwrap().is_linux());
}

#[test]
fn os_release_fields() {
    let r = OsRelease::try_from("NAME=A\nID=first\nID=second\nVERSION=1=2\n\n").unwrap();
    assert_eq!(r.id(), "second");
    assert_eq!(r.version, Some("1=2".to_string()));
    assert_eq!(r.version_codename(), None);
    assert_eq!(OsRelease::try_from("NAME=A\n").err(), Some(Erro::OsRelease(OsReleaseError::Id)));
}

#[test]
fn system_and_manager() {
    let mut sys = local_system(None);
    assert_eq!(sys.os(), Err(Erro::OsDetection));
    assert_eq!(sys.record_os(Os::LinuxUbuntuFocal), Os::LinuxUbuntuFocal);
    assert_eq!(sys.record_os(Os::LinuxDebian), Os::LinuxUbuntuFocal);
    assert_eq!(sys.os(), Ok(Os::LinuxUbuntuFocal));
    assert_eq!(sys.channel(), Channel::User);

    let mut m = SystemManager::new(Some("host:22"));
    assert_eq!(m.endpoint(), Some("host:22"));
    assert!(m.system().is_none());
    let first = System::new(
        Platform::Posix(Posix::new(Credential::new("a", "1"), Some("host:22".into()))),
        Some(Os::LinuxAny),
    );
    m.install(first);
    let second = local_system(Some(Os::LinuxDebian));
    let kept = m.install(second);
    assert_eq!(kept.os(), Ok(Os::LinuxAny));
    assert_eq!(kept.posix().credential().username(), "a");
    assert_eq!(kept.channel(), Channel::Ssh);
}

#[test]
fn posix_commands() {
    let p = Posix::new(Credential::new("dev", "pw"), None);
    assert_eq!(p.endpoint_ok(), Err(Erro::EndpointMissing));
    assert_eq!(p.endpoint(), None);
    assert_eq!(p.credential().password(), "pw");
    assert_eq!(Posix::name(), "posix");
    assert_eq!(
        Posix::required_executables(),
        vec!["/bin/su", "/bin/unlink", "/bin/true", "/bin/cp", "/bin/cat", "/bin/chmod", "/bin/test"]
    );
    let (prog, args) = Posix::command(&Operation::FileType("/etc".into()));
    assert_eq!(prog, Posix::stat());
    assert_eq!(args, vec!["--printf", "%F", "/etc"]);
    let (prog, args) = Posix::command(&Operation::CopyInto("/tmp/a".into(), "/etc/b".into()));
    assert_eq!(prog, "/bin/cp");
    assert_eq!(args, vec!["--no-preserve=mode,ownership", "/tmp/a", "/etc/b"]);
    assert_eq!(Posix::command(&Operation::VerifyCredential).0, "/bin/true");
    assert_eq!(
        Posix::detect(Credential::new("a", "b"), None, Err(Erro::RunUser(1, "stat: cannot stat".into()))).err(),
        Some(Erro::EndpointIncompatible)
    );
    assert_eq!(
        Posix::detect(Credential::new("a", "b"), None, Err(Erro::RunUserPasswordInvalid)).err(),
        Some(Erro::RunUserPasswordInvalid)
    );
    assert!(Posix::detect(Credential::new("a", "b"), None, Ok(vec![])).is_ok());
}

// ---- passwd

#[test]
fn passwd_lines_and_errors() {
    let e = PasswdEntry::try_from("u:x:10:20:c:/h:/bin/sh:extra").unwrap();
    assert_eq!(e.user_id, 10);
    assert_eq!(e.to_string(), "u:x:10:20:c:/h:/bin/sh");
    assert_eq!(PasswdEntry::try_from("u:x:10").err(), Some(Erro::Passwd(PasswdError::FieldMissing)));
    assert_eq!(PasswdEntry::try_from("u:x:a:1:c:h:p").err(), Some(Erro::ParseInt));
    assert_eq!(PasswdEntry::try_from("u:x:+7:18446744073709551615:c:h:p").unwrap().user_id, 7);
    assert_eq!(PasswdEntry::try_from("u:x:1:18446744073709551616:c:h:p").err(), Some(Erro::ParseInt));
    assert_eq!(Passwd::parse("").unwrap().content_string(), "\n");
    assert_eq!(Passwd::parse("a:b:c\n").err(), Some(Erro::Passwd(PasswdError::FieldMissing)));
}

#[test]
fn ssh_results() {
    assert_eq!(boofi::system::ssh_outcome(0, "out".into(), "".into()), Ok("out".to_string()));
    assert_eq!(
        boofi::system::ssh_outcome(127, "".into(), "not found".into()),
        Err(Erro::RunSsh(127, "not found".into()))
    );
}

#[test]
fn help_bundles() {
    let h = AppBuilders::ShBuilder.help(&Os::LinuxUbuntu);
    assert_eq!(h.name, "sh");
    assert!(h.compatible);
    assert_eq!(h.input.kind, "ShInput");
    assert_eq!(h.input.fields[0].name, "command");
    assert_eq!(h.output.kind, "String");
    assert!(!AppBuilders::ShBuilder.help(&Os::Unknown).compatible);
    let f = FileBuilders::CrontabBuilder.help();
    assert_eq!(f.name, "cronjob");
    assert_eq!(f.patterns.len(), 2);
    assert_eq!(f.capabilities, vec![Capability::Read, Capability::Write, Capability::Delete]);
    assert_eq!(Capability::Delete.name(), "delete");
}

#[test]
fn passwd_merge() {
    let base = Passwd::parse(PASSWD_BASE).unwrap();
    let mut p = base;
    let input = boofi::passwd::PasswdInput {
        new_entries: Some(vec![PasswdEntry::try_from("new:x:5:5::/home/new:/bin/sh").unwrap()]),
        remove_by_username: Some(vec!["bin".to_string()]),
        overwrite: None,
    };
    assert!(!input.overwrites());
    p.apply(input).unwrap();
    assert_eq!(p.content_string(), "root:x:0:0:root:/root:/bin/bash\nnew:x:5:5::/home/new:/bin/sh\n");
    let again = boofi::passwd::PasswdInput {
        new_entries: None,
        remove_by_username: Some(vec!["ghost".to_string()]),
        overwrite: None,
    };
    assert_eq!(p.apply(again), Err(PasswdError::UserNotFound("ghost".into())));
    let over = boofi::passwd::PasswdInput { new_entries: None, remove_by_username: None, overwrite: Some(true) };
    assert!(over.overwrites());
    assert_eq!(over.overwrite_content(), Err(Erro::Passwd(PasswdError::NoNewEntries)));
}

const PASSWD_BASE: &str = "root:x:0:0:root:/root:/bin/bash\nbin:x:2:2:bin:/bin:/usr/sbin/nologin\n";

#[test]
fn uname_line() {
    let u = Uname::parse("Linux felix-VirtualBox 5.15.0-78-generic #85~20.04.1-Ubuntu SMP Mon Jul 17 09:42:39 UTC 2023 x86_64 x86_64 x86_64 GNU/Linux\n").unwrap();
    assert_eq!(u, Uname {
        kernel_name: "Linux".into(),
        nodename: "felix-VirtualBox".into(),
        kernel_release: "5.15.0-78-generic".into(),
        kernel_version: "#85~20.04.1-Ubuntu SMP Mon Jul 17 09:42:39 UTC 2023".into(),
        machine: "x86_64".into(),
        processor: "x86_64".into(),
        hardware_platform: "x86_64".into(),
        operating_system: "GNU/Linux".into(),
    });
    assert_eq!(Uname::parse("Linux"), Err(Erro::Uname(boofi::error::UnameError::ParseLeft)));
    assert_eq!(Uname::parse("a b c d e\n"), Err(Erro::Uname(boofi::error::UnameError::ParseRight)));
}

#[test]
fn delete_always_available() {
    assert_eq!(FileBuilders::UptimeBuilder.capable(Capability::Delete), Ok(()));
    assert_eq!(
        FileBuilders::OsReleaseBuilder.capable(Capability::Read),
        Ok(())
    );
}

#[test]
fn help_schema_and_examples() {
    let h = AppBuilders::LsBuilder.help(&Os::LinuxAny);
    assert_eq!(h.description, "Use ls to list directory and files.");
    assert_eq!(h.examples.len(), 1);
    assert_eq!(h.examples[0].description, "Show files human readable with details.");
    assert_eq!(h.input.fields.len(), 5);
    let f = FileBuilders::PasswdBuilder.help();
    assert_eq!(f.description, "Managed passwd file.");
    assert_eq!(f.input.kind, "PasswdInput");
    assert_eq!(f.output.kind, "Passwd");
    assert_eq!(f.output.fields[0].name, "content");
    assert_eq!(f.examples.len(), 3);
    let v = FileBuilders::VersionBuilder.help();
    assert_eq!(v.output.fields.len(), 4);
    assert_eq!(v.input.kind, "empty");
    assert!(FileBuilders::MeminfoBuilder.help().examples.is_empty());
}

#[test]
fn passwd_merge_error_leaves_earlier_steps() {
    let mut p = Passwd::parse(PASSWD_BASE).unwrap();
    let input = boofi::passwd::PasswdInput {
        new_entries: Some(vec![
            PasswdEntry::try_from("a:x:5:5::/a:/bin/sh").unwrap(),
            PasswdEntry::try_from("root:x:9:9::/r:/bin/sh").unwrap(),
        ]),
        remove_by_username: None,
        overwrite: None,
    };
    assert_eq!(p.apply(input), Err(PasswdError::UserAlreadyExist("root".into())));
    assert_eq!(p.content().len(), 3);
    assert_eq!(p.content()[2].user, "a");
}

#[test]
fn first_registered_name_wins() {
    let c = Controller::new(60, None);
    assert_eq!(c.runnable_app("ls", &Os::LinuxAny), Ok(AppBuilders::LsBuilder));
    assert_eq!(c.runnable_app("wget", &Os::LinuxUnknown), Err(Erro::AppIncompatible));
    assert_eq!(c.file_builders_by_name("text"), Ok(FileBuilders::TextBuilder));
}

#[test]
fn whitespace_handling() {
    let input = LsInput::new(Some(true), None, None, None, "/".into());
    let entries = parse_listing(&input, "total 1\n-rw-r--r--\t1 root root\u{a0}12 Jan  1 00:00   my  file \n").unwrap();
    assert_eq!(entries[0].filename(), "my file");
    assert_eq!(entries[0].size(), Some("12"));
    let u = Uname::parse("Linux h 6.1 #1 SMP x86_64 x86_64 x86_64 GNU/Linux \r\n").unwrap();
    assert_eq!(u.operating_system, "GNU/Linux");
    assert_eq!(u.kernel_version, "#1 SMP");
    assert_eq!(
        classify_su_failure(1, "\n  Password: su: Authentication failure\t\n"),
        Erro::RunUserPasswordInvalid
    );
}
