use zkp_auth::cli::{parse_port, Command, LoginCommand, RegisterCommand, ServerOptions};

#[test]
fn ports_parse_digits_only() {
    assert_eq!(parse_port("3000"), Some(3000));
    assert_eq!(parse_port("0"), Some(0));
    assert_eq!(parse_port("070"), Some(70));
    assert_eq!(parse_port("65535"), Some(65535));
}

#[test]
fn bad_ports_are_rejected() {
    assert_eq!(parse_port(""), None);
    assert_eq!(parse_port("65536"), None);
    assert_eq!(parse_port("99999999999999999999"), None);
    assert_eq!(parse_port("30a0"), None);
    assert_eq!(parse_port("-1"), None);
    assert_eq!(parse_port("+80"), None);
    assert_eq!(parse_port("127.0.0.1"), None);
}

#[test]
fn command_shapes_carry_their_fields() {
    let cmd = Command::Register(RegisterCommand {
        username: Some("alice".to_string()),
        password: None,
        server: ServerOptions { addr: "http://127.0.0.1:3000".to_string() },
    });
    match cmd {
        Command::Register(r) => {
            assert_eq!(r.username.as_deref(), Some("alice"));
            assert!(r.password.is_none());
            assert_eq!(r.server.addr, "http://127.0.0.1:3000");
        },
        Command::Login(_) => panic!("wrong variant"),
    }
    let login = LoginCommand {
        username: None,
        password: Some("pw".to_string()),
        server: ServerOptions { addr: "http://localhost:3000".to_string() },
    };
    assert!(login.username.is_none());
    assert_eq!(login.password.as_deref(), Some("pw"));
}
