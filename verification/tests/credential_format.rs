use infinyon_tok::Credentials;
use infinyon_tok::InfinyonCredentialError;
use infinyon_tok::current_pointer_path;
use infinyon_tok::current_record_path;

#[test]
fn credentials_round_trip() {
    let before = Credentials {
        remote: "https://infinyon.cloud".to_string(),
        email: "user@example.com".to_string(),
        id: "1".to_string(),
        token: "t1".to_string(),
    };
    let written = before.render();
    let read_back = Credentials::parse(&written).expect("rendered record must parse");
    assert_eq!(read_back, before);
}

#[test]
fn credentials_round_trip_with_escapes() {
    let before = Credentials {
        remote: "r".to_string(),
        email: "e".to_string(),
        id: "weird \"id\" with \\ backslash".to_string(),
        token: "line one\nline two".to_string(),
    };
    let written = before.render();
    let read_back = Credentials::parse(&written).expect("rendered record must parse");
    assert_eq!(read_back, before);
}

#[test]
fn render_exact_form() {
    let record = Credentials {
        remote: "r1".to_string(),
        email: "e".to_string(),
        id: "1".to_string(),
        token: "t1".to_string(),
    };
    assert_eq!(
        record.render(),
        "remote = \"r1\"\nemail = \"e\"\nid = \"1\"\ntoken = \"t1\"\n"
    );
}

#[test]
fn parse_rejects_garbage() {
    let r = Credentials::parse("not a credential file");
    assert!(matches!(
        r,
        Err(InfinyonCredentialError::UnableToParseCredentials)
    ));
}

#[test]
fn parse_rejects_trailing_text() {
    let good = "remote = \"r1\"\nemail = \"e\"\nid = \"1\"\ntoken = \"t1\"\n";
    assert!(Credentials::parse(good).is_ok());
    let with_extra = format!("{}extra", good);
    assert!(matches!(
        Credentials::parse(&with_extra),
        Err(InfinyonCredentialError::UnableToParseCredentials)
    ));
}

#[test]
fn load_of_failed_read_is_read_error() {
    let r = Credentials::load(None);
    match r {
        Err(InfinyonCredentialError::Read(msg)) => {
            assert_eq!(msg, "no access credentials, try 'fluvio cloud login'");
        }
        other => panic!("expected a read failure, got {other:?}"),
    }
}

#[test]
fn load_of_corrupt_record_is_parse_error() {
    let r = Credentials::load(Some("remote = oops".to_string()));
    assert!(matches!(
        r,
        Err(InfinyonCredentialError::UnableToParseCredentials)
    ));
    let e = InfinyonCredentialError::UnableToParseCredentials;
    assert_eq!(e.message(), "unable to parse credentials");
}

#[test]
fn pointer_paths() {
    assert_eq!(current_pointer_path("base"), "base/current");
    assert_eq!(current_record_path("base", " profA.toml\n"), "base/profA.toml");
    assert_eq!(current_record_path("", "profA.toml"), "profA.toml");
}
