use openssl_execute::parse_cmd::{retrieve_before, retrieve_ca};
use openssl_execute::parse_usr_cmd::Cmd;

#[test]
fn should_retrieve_before_2d() {
    let cmd = Cmd {
        before: 0,
        ca: "ca".to_string(),
        cmd: "cmd".to_string(),
    };

    let before = retrieve_before(cmd, "before=2d".to_string());

    assert_eq!("ca", before.ca);
    assert_eq!("cmd", before.cmd);
    assert_eq!(2, before.before);
}

#[test]
fn should_retrieve_0d_if_no_before() {
    let cmd = Cmd {
        before: 0,
        ca: "ca".to_string(),
        cmd: "cmd".to_string(),
    };

    let before = retrieve_before(cmd, "".to_string());

    assert_eq!("ca", before.ca);
    assert_eq!("cmd", before.cmd);
    assert_eq!(0, before.before);
}

#[test]
fn should_retrieve_ca() {
    let cmd = Cmd {
        before: 0,
        ca: "ca".to_string(),
        cmd: "cmd".to_string(),
    };

    let ca = retrieve_ca(cmd, "ca=/cert/ca.pem".to_string());
    assert_eq!("/cert/ca.pem", ca.ca);
    assert_eq!("cmd", ca.cmd);
    assert_eq!(0, ca.before);
}

#[test]
fn should_retrieve_empty_ca() {
    let cmd = Cmd {
        before: 0,
        ca: "".to_string(),
        cmd: "cmd".to_string(),
    };

    let ca = retrieve_ca(cmd, "".to_string());
    assert_eq!("", ca.ca);
    assert_eq!("cmd", ca.cmd);
    assert_eq!(0, ca.before);
}

#[test]
fn new_and_merge_combine_first_wins() {
    let a = Cmd::new("run.sh".to_string());
    assert_eq!(0, a.before);
    assert_eq!("", a.ca);
    assert_eq!("run.sh", a.cmd);

    let mut b = Cmd::new("".to_string());
    b.before = 7;
    b.ca = "/other.pem".to_string();

    let merged = a.clone().merge(b.clone());
    assert_eq!(7, merged.before);
    assert_eq!("/other.pem", merged.ca);
    assert_eq!("run.sh", merged.cmd);

    let mut c = Cmd::new("first.sh".to_string());
    c.before = 1;
    c.ca = "/first.pem".to_string();
    let merged2 = c.merge(b);
    assert_eq!(1, merged2.before);
    assert_eq!("/first.pem", merged2.ca);
    assert_eq!("first.sh", merged2.cmd);
}
