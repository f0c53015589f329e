use boofi::auth::AuthController;
use boofi::description::DescriptionField;
use boofi::os::Os;
use boofi::os_release::OsRelease;
use boofi::passwd::{Passwd, PasswdEntry};
use boofi::version::Version;

#[test]
fn token_expired() {
    let mut auth = AuthController::new(0);

    let token = auth.insert_or_replace("user".into(), "pass".into(), 100);
    assert!(auth.get(&token, 100).is_err());
}

#[test]
fn token_remove() {
    let mut auth = AuthController::new(0);

    let token = auth.insert_or_replace("user".into(), "pass".into(), 100);

    assert!(auth.delete(&token));
    assert!(!auth.delete(&token));
}

#[test]
fn test() {
    let third = DescriptionField::new("Third", "Third", "", vec![DescriptionField::field("bool")]);
    let second = DescriptionField::new(
        "II",
        "2nd",
        "second",
        vec![
            DescriptionField::field("bool"),
            DescriptionField::new("text", "b²", "double b", vec![]),
        ],
    );
    let first = DescriptionField::new(
        "1st",
        "1",
        "start",
        vec![
            DescriptionField::field("bool"),
            second,
            DescriptionField::optional(DescriptionField::field("bool")),
            DescriptionField::field("(bool, String)"),
            third,
        ],
    );
    assert_eq!(first.len(), 5);
}

#[test]
fn os_release_test_parse() {
    let release = OsRelease::try_from("NAME=\"Ubuntu\"\nID=ubuntu\nVERSION_CODENAME=focal\n").unwrap();
    assert_eq!(release.id(), "ubuntu");
    assert_eq!(release.version_codename(), Some("focal"));
}

const PASSWD: &str = "root:x:0:0:root:/root:/bin/bash\nbin:x:2:2:bin:/bin:/usr/sbin/nologin\ndev:x:1001:1001::/home/dev:/bin/sh\n";

#[test]
fn passwd_test_parse() {
    let content = PASSWD.to_string();
    let passwd = Passwd::parse(&content).unwrap();

    assert_eq!(passwd.content().to_vec(), vec![
        PasswdEntry { user: "root".into(), password: "x".into(), user_id: 0, group_id: 0, comment: "root".into(), home: "/root".into(), program: "/bin/bash".into() },
        PasswdEntry { user: "bin".into(), password: "x".into(), user_id: 2, group_id: 2, comment: "bin".into(), home: "/bin".into(), program: "/usr/sbin/nologin".into() },
        PasswdEntry { user: "dev".into(), password: "x".into(), user_id: 1001, group_id: 1001, comment: "".into(), home: "/home/dev".into(), program: "/bin/sh".into() },
    ]);

    assert_eq!(passwd.content_string(), content);
}

#[test]
fn test_add() {
    let mut passwd = Passwd::new(vec![]);

    let entry = PasswdEntry {
        user: "test".to_string(),
        password: "x".to_string(),
        user_id: 1,
        group_id: 2,
        comment: "".to_string(),
        home: "".to_string(),
        program: "".to_string(),
    };

    passwd.add_user(entry.clone()).unwrap();

    assert_eq!(passwd.content().to_vec(), vec![entry.clone()]);

    let mut entry2 = entry.clone();
    entry2.user = "test2".into();

    passwd.add_user(entry2.clone()).unwrap();

    // add another one
    assert_eq!(passwd.content().to_vec(), vec![entry.clone(), entry2]);

    // duplicate
    assert_eq!(&format!("{:?}", passwd.add_user(entry)), "Err(UserAlreadyExist(\"test\"))");
}

#[test]
fn test_remove() {
    let user1 = PasswdEntry {
        user: "test".to_string(),
        password: "x".to_string(),
        user_id: 1,
        group_id: 2,
        comment: "".to_string(),
        home: "".to_string(),
        program: "".to_string(),
    };

    let user2 = PasswdEntry {
        user: "test2".to_string(),
        password: "x".to_string(),
        user_id: 2,
        group_id: 3,
        comment: "".to_string(),
        home: "".to_string(),
        program: "".to_string(),
    };

    let mut passwd = Passwd::new(vec![user1, user2.clone()]);

    passwd.remove_user("test").unwrap();

    assert_eq!(passwd, Passwd::new(vec![user2]));

    // already gone
    assert_eq!(&format!("{:?}", passwd.remove_user("test")), "Err(UserNotFound(\"test\"))");
}

#[test]
fn version_test_parse() {
    let content = "Linux version 5.15.0-76-generic (buildd@lcy02-amd64-019) (gcc (Ubuntu 9.4.0-1ubuntu1~20.04.1) 9.4.0, GNU ld (GNU Binutils for Ubuntu) 2.34) #83~20.04.1-Ubuntu SMP Wed Jun 21 20:23:31 UTC 2023\n";
    assert_eq!(Version::parse(content).unwrap(), Version {
        version: "Linux version 5.15.0-76-generic".into(),
        compiled_by: "buildd".into(),
        compiled_host: "lcy02-amd64-019".into(),
        compiler: "gcc (Ubuntu 9.4.0-1ubuntu1~20.04.1) 9.4.0, GNU ld (GNU Binutils for Ubuntu) 2.34".into(),
    });
}

#[test]
fn test_compatible() {
    assert!(Os::Unknown.compatible(&Os::Unknown));
    assert!(!Os::Unknown.compatible(&Os::LinuxAny));
    assert!(Os::LinuxAny.compatible(&Os::LinuxUbuntu));
    assert!(Os::LinuxUbuntu.compatible(&Os::LinuxAny));
    assert!(Os::LinuxUbuntu.compatible(&Os::LinuxUbuntuLuna));
    assert!(!Os::LinuxUbuntuLuna.compatible(&Os::LinuxUbuntu));
}
