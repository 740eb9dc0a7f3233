//! The resolution orchestrator: the ordered fallback chain across the
//! environment override, the external helper's multi-organization tokens, and
//! the legacy on-disk scheme.
//!
//! All reads are performed by the caller and handed in as plain values:
//! `None` stands for a read that failed (a missing file, a helper that could
//! not be executed). The two public entry points deliberately differ:
//! [`read_infinyon_token`] consults the helper first and falls back to the
//! legacy scheme, while [`read_infinyon_token_rem`] never consults the helper
//! at all — it honors the environment override and otherwise goes straight to
//! the legacy scheme. That asymmetry is existing behavior and is preserved.
use vstd::prelude::*;

use crate::credentials::Credentials;
use crate::credentials::CredentialsView;
use crate::credentials::spec_load;
use crate::credentials::spec_try_load;
use crate::errors::ErrorView;
use crate::errors::InfinyonCredentialError;
use crate::text::spec_join;
use crate::tokens::read_access_tokens;
use crate::tokens::spec_min_org;
use crate::tokens::spec_parse_cli_access_tokens;

verus! {

/// The view of a read that may have failed.
pub open spec fn opt_read_view(o: Option<String>) -> Option<Seq<char>> {
    match o {
        Some(s) => Some(s@),
        None => None,
    }
}

pub open spec fn token_result_view(r: Result<String, InfinyonCredentialError>) -> Result<
    Seq<char>,
    ErrorView,
> {
    match r {
        Ok(t) => Ok(t@),
        Err(e) => Err(e@),
    }
}

pub open spec fn token_remote_result_view(
    r: Result<(String, String), InfinyonCredentialError>,
) -> Result<(Seq<char>, Seq<char>), ErrorView> {
    match r {
        Ok(p) => Ok((p.0@, p.1@)),
        Err(e) => Err(e@),
    }
}

/// The token delivered by the legacy scheme: the loaded record's token.
pub open spec fn spec_legacy_token(
    pointer_read: Option<Seq<char>>,
    record_read: Option<Seq<char>>,
) -> Result<Seq<char>, ErrorView> {
    match spec_try_load(pointer_read, record_read) {
        Ok(c) => Ok(c.token),
        Err(e) => Err(e),
    }
}

/// What the current-token resolution returns: the helper's choice when its
/// output is well formed, the fatal `NoOrganization` failure when the
/// identity belongs to no organization, and the legacy token when the helper
/// could not run or its output did not parse.
pub open spec fn spec_read_infinyon_token(
    helper_stdout: Option<Seq<char>>,
    pointer_read: Option<Seq<char>>,
    record_read: Option<Seq<char>>,
) -> Result<Seq<char>, ErrorView> {
    match helper_stdout {
        None => spec_legacy_token(pointer_read, record_read),
        Some(out) => match spec_parse_cli_access_tokens(out) {
            None => spec_legacy_token(pointer_read, record_read),
            Some(t) => if t.org_access_tokens.len() == 0 {
                Err(ErrorView::NoOrganization)
            } else {
                Ok(spec_min_org(t.org_access_tokens).1)
            },
        },
    }
}

/// What the remote-aware resolution returns: with the override set, the
/// override file's token and remote alone; otherwise the legacy record's.
pub open spec fn spec_read_infinyon_token_rem(
    env_profile_read: Option<Option<Seq<char>>>,
    pointer_read: Option<Seq<char>>,
    record_read: Option<Seq<char>>,
) -> Result<(Seq<char>, Seq<char>), ErrorView> {
    let loaded: Result<CredentialsView, ErrorView> = match env_profile_read {
        Some(file_read) => spec_load(file_read),
        None => spec_try_load(pointer_read, record_read),
    };
    match loaded {
        Ok(c) => Ok((c.token, c.remote)),
        Err(e) => Err(e),
    }
}

/// The legacy single-profile resolution: the pointer file's read, then the
/// read of the credential file it named, yield the active record's token.
pub fn read_infinyon_token_v3(
    pointer_read: Option<String>,
    record_read: Option<String>,
) -> (res: Result<String, InfinyonCredentialError>)
    ensures
        token_result_view(res) == spec_legacy_token(
            opt_read_view(pointer_read),
            opt_read_view(record_read),
        ),
{
    match Credentials::try_load(pointer_read, record_read) {
        Ok(c) => Ok(c.token),
        Err(e) => Err(e),
    }
}

/// The current-token resolution: helper first, legacy second, and a loud
/// failure when the helper reports an identity without organizations.
pub fn read_infinyon_token(
    helper_stdout: Option<String>,
    pointer_read: Option<String>,
    record_read: Option<String>,
) -> (res: Result<String, InfinyonCredentialError>)
    ensures
        token_result_view(res) == spec_read_infinyon_token(
            opt_read_view(helper_stdout),
            opt_read_view(pointer_read),
            opt_read_view(record_read),
        ),
{
    match read_access_tokens(helper_stdout) {
        Ok(t) => t.current_org_token(),
        Err(_) => read_infinyon_token_v3(pointer_read, record_read),
    }
}

/// The remote-aware resolution. It never consults the helper: the override
/// file's read decides alone when the override is set (`env_profile_read` is
/// `Some`), and the legacy scheme decides otherwise.
pub fn read_infinyon_token_rem(
    env_profile_read: Option<Option<String>>,
    pointer_read: Option<String>,
    record_read: Option<String>,
) -> (res: Result<(String, String), InfinyonCredentialError>)
    ensures
        token_remote_result_view(res) == spec_read_infinyon_token_rem(
            match env_profile_read {
                Some(file_read) => Some(opt_read_view(file_read)),
                None => None,
            },
            opt_read_view(pointer_read),
            opt_read_view(record_read),
        ),
{
    match env_profile_read {
        Some(file_read) => match Credentials::load(file_read) {
            Ok(c) => Ok((c.token, c.remote)),
            Err(e) => Err(e),
        },
        None => match Credentials::try_load(pointer_read, record_read) {
            Ok(c) => Ok((c.token, c.remote)),
            Err(e) => Err(e),
        },
    }
}

// ---------------------------------------------------------------------------
// The default base directory.
// ---------------------------------------------------------------------------
/// Relies on dirs::home_dir: the user's home directory, read from the ambient
/// environment; nothing can be promised of the outcome.
#[verifier::external_body]
fn home_dir_string() -> (r: Option<String>) {
    dirs::home_dir().map(|p| p.to_string_lossy().to_string())
}

/// The legacy base directory under a given home directory: the fixed
/// application-config path `.fluvio`, then the `logins` subdirectory. An
/// unknown home directory counts as empty.
pub open spec fn spec_default_file_path(home: Option<Seq<char>>) -> Seq<char> {
    spec_join(
        spec_join(
            match home {
                Some(h) => h,
                None => Seq::empty(),
            },
            ".fluvio"@,
        ),
        "logins"@,
    )
}

/// The legacy base directory derived from a caller-supplied home directory.
pub fn default_file_path_from(home: Option<String>) -> (r: String)
    ensures
        r@ == spec_default_file_path(opt_read_view(home)),
{
    let base = match home {
        Some(h) => h,
        None => String::new(),
    };
    let with_config = crate::text::join_path(base.as_str(), ".fluvio");
    crate::text::join_path(with_config.as_str(), "logins")
}

/// The legacy base directory under the home directory of the ambient
/// environment.
pub fn default_file_path() -> (r: String)
    ensures
        exists|home: Option<Seq<char>>| r@ == spec_default_file_path(home),
{
    let home = home_dir_string();
    let ghost home_view = opt_read_view(home);
    let r = default_file_path_from(home);
    proof {
        assert(r@ == spec_default_file_path(home_view));
    }
    r
}

// ---------------------------------------------------------------------------
// Laws of the fallback chain.
// ---------------------------------------------------------------------------
/// With the environment override set, the remote-aware resolution depends on
/// the override file alone: whatever the legacy base directory holds, the
/// result is the same.
pub proof fn lemma_env_override_ignores_base(
    file_read: Option<Seq<char>>,
    pointer_a: Option<Seq<char>>,
    record_a: Option<Seq<char>>,
    pointer_b: Option<Seq<char>>,
    record_b: Option<Seq<char>>,
)
    ensures
        spec_read_infinyon_token_rem(Some(file_read), pointer_a, record_a)
            == spec_read_infinyon_token_rem(Some(file_read), pointer_b, record_b),
{
}

/// When the helper cannot be executed, the current-token resolution is
/// exactly the legacy resolution.
pub proof fn lemma_helper_failure_falls_back(
    pointer_read: Option<Seq<char>>,
    record_read: Option<Seq<char>>,
)
    ensures
        spec_read_infinyon_token(None, pointer_read, record_read) == spec_legacy_token(
            pointer_read,
            record_read,
        ),
{
}

/// When the helper's output is well formed but names no organization, the
/// resolution fails with `NoOrganization`, whatever the legacy base
/// directory holds: it never degrades to an empty or legacy token.
pub proof fn lemma_empty_orgs_fails_loudly(
    out: Seq<char>,
    pointer_read: Option<Seq<char>>,
    record_read: Option<Seq<char>>,
)
    requires
        spec_parse_cli_access_tokens(out) matches Some(t) && t.org_access_tokens.len() == 0,
    ensures
        spec_read_infinyon_token(Some(out), pointer_read, record_read) == Err::<
            Seq<char>,
            ErrorView,
        >(ErrorView::NoOrganization),
{
}

} // verus!
