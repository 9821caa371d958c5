use gospin::cli::{port_value, Gospin};

#[test]
fn test_gospin_default() {
    let args: Vec<String> = vec!["gospin".to_string()];
    let app = Gospin::parse_from(&args);
    assert_eq!(app.project, None);
    assert_eq!(app.port, "8080");
}

#[test]
fn test_gospin_with_args() {
    let args: Vec<String> = vec![
        "gospin".to_string(),
        "prj".to_string(),
        "--port".to_string(),
        "3000".to_string(),
    ];
    let app = Gospin::parse_from(&args);
    assert_eq!(app.project, Some("prj".to_string()));
    assert_eq!(app.port, "3000");
}

#[test]
fn test_gospin_flags_and_username() {
    let args: Vec<String> = vec![
        "gospin".to_string(),
        "-u".to_string(),
        "alice".to_string(),
        "--database".to_string(),
        "-w".to_string(),
        "--secrets".to_string(),
        "myproj".to_string(),
    ];
    let app = Gospin::parse_from(&args);
    assert_eq!(app.project, Some("myproj".to_string()));
    assert_eq!(app.ghu, Some("alice".to_string()));
    assert!(app.db);
    assert!(app.ws);
    assert!(app.secrets);
    assert_eq!(app.port, "8080");
}

#[test]
fn test_port_value_plain() {
    assert_eq!(port_value("3000"), 3000);
    assert_eq!(port_value("8080"), 8080);
    assert_eq!(port_value("0"), 0);
}

#[test]
fn test_port_value_signed_and_bad() {
    assert_eq!(port_value("+42"), 42);
    assert_eq!(port_value("abc"), 8080);
    assert_eq!(port_value(""), 8080);
    assert_eq!(port_value("+"), 8080);
    assert_eq!(port_value("12x"), 8080);
    assert_eq!(port_value("4294967295"), 4294967295);
    assert_eq!(port_value("99999999999999999999"), 8080);
}
