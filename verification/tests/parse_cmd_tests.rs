use openssl_execute::parse_cmd;

#[test]
fn cmd_should_be_parsed() {
    let args = vec![
        "openssl-execute".to_string(),
        "before=10d".to_string(),
        "ca=/cert/ca_certificate.pem".to_string(),
        "./hello.sh".to_string(),
    ];

    let cmd = parse_cmd::parse(args).unwrap();

    assert_eq!(10, cmd.before);
    assert_eq!("/cert/ca_certificate.pem", cmd.ca);
    assert_eq!("./hello.sh", cmd.cmd);
}

#[test]
fn cmd_without_script_arg_should_fail() -> Result<(), String> {
    let args = vec![
        "openssl-execute".to_string(),
        "before=10d".to_string(),
        "ca=/cert/ca_certificate.pem".to_string(),
    ];

    match parse_cmd::parse(args) {
        Ok(_) => Err("it should be impossible to parse correctly the command line".to_string()),
        Err(_) => Ok(()),
    }
}

#[test]
fn should_not_parse_the_cmd() -> Result<(), String> {
    let args = vec!["openssl-execute".to_string()];

    match parse_cmd::parse(args) {
        Ok(_) => Err("it should be impossible to parse correctly the command line".to_string()),
        Err(_) => Ok(()),
    }
}

#[test]
fn empty_arg_list_is_refused() {
    let r = parse_cmd::parse(Vec::new());
    assert_eq!(r.unwrap_err(), "a minimum of one parameter is required");
}

#[test]
fn trailing_token_with_eq_is_refused() {
    let args = vec!["openssl-execute".to_string(), "ca=/cert/ca.pem".to_string()];
    let r = parse_cmd::parse(args);
    assert_eq!(
        r.unwrap_err(),
        "the last parameters has to be the file to execute"
    );
}

#[test]
fn first_non_zero_before_wins() {
    let args = vec![
        "openssl-execute".to_string(),
        "before=2d".to_string(),
        "before=3d".to_string(),
        "./hello.sh".to_string(),
    ];
    let cmd = parse_cmd::parse(args).unwrap();
    assert_eq!(2, cmd.before);
}

#[test]
fn zero_before_counts_as_unset() {
    let args = vec![
        "openssl-execute".to_string(),
        "before=0d".to_string(),
        "before=3d".to_string(),
        "./hello.sh".to_string(),
    ];
    let cmd = parse_cmd::parse(args).unwrap();
    assert_eq!(3, cmd.before);
}

#[test]
fn first_non_empty_ca_wins() {
    let args = vec![
        "openssl-execute".to_string(),
        "ca=/first.pem".to_string(),
        "ca=/second.pem".to_string(),
        "./hello.sh".to_string(),
    ];
    let cmd = parse_cmd::parse(args).unwrap();
    assert_eq!("/first.pem", cmd.ca);
}

#[test]
fn oversized_before_value_is_refused() {
    let args = vec![
        "openssl-execute".to_string(),
        "before=99999999999d".to_string(),
        "./hello.sh".to_string(),
    ];
    let r = parse_cmd::parse(args);
    assert_eq!(r.unwrap_err(), "invalid before value");
}

#[test]
fn missing_fragments_leave_defaults() {
    let args = vec!["openssl-execute".to_string(), "./hello.sh".to_string()];
    let cmd = parse_cmd::parse(args).unwrap();
    assert_eq!(0, cmd.before);
    assert_eq!("", cmd.ca);
    assert_eq!("./hello.sh", cmd.cmd);
}
