use infinyon_tok::CliAccessTokens;
use infinyon_tok::Credentials;
use infinyon_tok::InfinyonCredentialError;
use infinyon_tok::default_file_path;
use infinyon_tok::default_file_path_from;
use infinyon_tok::read_access_tokens;
use infinyon_tok::read_infinyon_token;
use infinyon_tok::read_infinyon_token_rem;
use infinyon_tok::read_infinyon_token_v3;

const RECORD_A: &str = "remote = \"r1\"\nemail = \"e\"\nid = \"1\"\ntoken = \"t1\"\n";
const RECORD_B: &str = "remote = \"r2\"\nemail = \"f\"\nid = \"2\"\ntoken = \"t2\"\n";

#[test]
fn legacy_scenario_resolves_record() {
    let r = Credentials::try_load(Some("profA.toml".to_string()), Some(RECORD_A.to_string()));
    let c = r.expect("a valid legacy profile must resolve");
    assert_eq!(c.remote, "r1");
    assert_eq!(c.token, "t1");
    let t = read_infinyon_token_v3(Some("profA.toml\n".to_string()), Some(RECORD_A.to_string()));
    assert_eq!(t.expect("legacy token"), "t1");
}

#[test]
fn missing_record_is_read_error_not_parse_error() {
    let r = Credentials::try_load(Some("profA.toml".to_string()), None);
    assert!(matches!(r, Err(InfinyonCredentialError::Read(_))));
}

#[test]
fn missing_pointer_is_read_error() {
    let r = Credentials::try_load(None, Some(RECORD_A.to_string()));
    match r {
        Err(InfinyonCredentialError::Read(msg)) => {
            assert_eq!(msg, "no access credentials, try 'fluvio cloud login'");
        }
        other => panic!("expected a read failure, got {other:?}"),
    }
}

#[test]
fn env_override_wins_over_legacy() {
    let r = read_infinyon_token_rem(
        Some(Some(RECORD_A.to_string())),
        Some("profB.toml".to_string()),
        Some(RECORD_B.to_string()),
    );
    let (token, remote) = r.expect("override profile must resolve");
    assert_eq!(token, "t1");
    assert_eq!(remote, "r1");
}

#[test]
fn no_override_uses_legacy() {
    let r = read_infinyon_token_rem(
        None,
        Some("profB.toml".to_string()),
        Some(RECORD_B.to_string()),
    );
    let (token, remote) = r.expect("legacy profile must resolve");
    assert_eq!(token, "t2");
    assert_eq!(remote, "r2");
}

#[test]
fn helper_unavailable_falls_back_to_legacy() {
    let t = read_infinyon_token(None, Some("profA.toml".to_string()), Some(RECORD_A.to_string()));
    assert_eq!(t.expect("legacy fallback token"), "t1");
}

#[test]
fn helper_garbage_falls_back_to_legacy() {
    let t = read_infinyon_token(
        Some("not json at all".to_string()),
        Some("profA.toml".to_string()),
        Some(RECORD_A.to_string()),
    );
    assert_eq!(t.expect("legacy fallback token"), "t1");
}

#[test]
fn single_org_token_is_returned() {
    let out = "{\"remote\":\"r\",\"user_access_token\":\"u\",\"org_access_tokens\":{\"org-a\":\"tok-a\"}}";
    let t = read_infinyon_token(Some(out.to_string()), None, None);
    assert_eq!(t.expect("helper token"), "tok-a");
}

#[test]
fn org_selection_is_lexicographic() {
    let out = "{\"remote\":\"r\",\"user_access_token\":\"u\",\"org_access_tokens\":{\"z-org\":\"tz\",\"a-org\":\"ta\"}}";
    let t = read_infinyon_token(Some(out.to_string()), None, None);
    assert_eq!(t.expect("helper token"), "ta");
}

#[test]
fn empty_orgs_fail_loudly() {
    let out = "{\"remote\":\"r\",\"user_access_token\":\"u\",\"org_access_tokens\":{}}";
    let t = read_infinyon_token(Some(out.to_string()), Some("profA.toml".to_string()), Some(RECORD_A.to_string()));
    match t {
        Err(e) => {
            assert!(matches!(e, InfinyonCredentialError::NoOrganization));
            let msg = e.message();
            assert!(msg.contains("login"));
            assert!(msg.contains("switch to an org"));
        }
        Ok(tok) => panic!("must not return a token, got {tok:?}"),
    }
}

#[test]
fn helper_execution_failure_is_read_error() {
    let r = read_access_tokens(None);
    match r {
        Err(InfinyonCredentialError::Read(msg)) => assert_eq!(msg, "failed to execute v4"),
        other => panic!("expected a read failure, got {other:?}"),
    }
}

#[test]
fn helper_output_parses_fully() {
    let out = "{\"remote\":\"r\",\"user_access_token\":\"u\",\"org_access_tokens\":{\"o1\":\"t1\",\"o2\":\"t2\"}}";
    let t = read_access_tokens(Some(out.to_string())).expect("well-formed helper output");
    assert_eq!(t.remote, "r");
    assert_eq!(t.user_access_token, "u");
    assert_eq!(
        t.org_access_tokens,
        vec![("o1".to_string(), "t1".to_string()), ("o2".to_string(), "t2".to_string())]
    );
}

#[test]
fn current_org_token_on_empty_set_fails() {
    let t = CliAccessTokens {
        remote: "r".to_string(),
        user_access_token: "u".to_string(),
        org_access_tokens: vec![],
    };
    assert!(matches!(
        t.current_org_token(),
        Err(InfinyonCredentialError::NoOrganization)
    ));
}

#[test]
fn current_org_token_prefers_smallest_key() {
    let t = CliAccessTokens {
        remote: "r".to_string(),
        user_access_token: "u".to_string(),
        org_access_tokens: vec![
            ("beta".to_string(), "tb".to_string()),
            ("alpha".to_string(), "ta".to_string()),
            ("gamma".to_string(), "tg".to_string()),
        ],
    };
    assert_eq!(t.get_current_org_token(), "ta");
    assert_eq!(t.current_org_token().expect("nonempty"), "ta");
}

#[test]
fn default_path_is_under_home() {
    assert_eq!(
        default_file_path_from(Some("/home/user".to_string())),
        "/home/user/.fluvio/logins"
    );
    assert_eq!(default_file_path_from(None), ".fluvio/logins");
    assert!(default_file_path().ends_with(".fluvio/logins"));
}
