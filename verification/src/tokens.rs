//! The multi-organization token set produced by the external helper, and the
//! deterministic choice of the current organization token.
//!
//! The helper prints one structured document to its standard output:
//!
//! ```text
//! {"remote":"...","user_access_token":"...","org_access_tokens":{"org":"tok",...}}
//! ```
//!
//! with the three top-level fields in that order, no surrounding whitespace,
//! and string values escaped as in [`crate::text`]. The organization map may
//! hold any number of entries in any order; the current organization token is
//! always the one whose organization identifier comes first in lexicographic
//! order, so the choice does not depend on the order in which the helper
//! happened to print the entries.
use vstd::prelude::*;
use vstd::string::StrSliceExecFns;
use vstd::string::StringExecFns;

use crate::errors::ErrorView;
use crate::errors::InfinyonCredentialError;
use crate::errors::spec_helper_failed_message;
use crate::text::lex_le;
use crate::text::parse_lit;
use crate::text::parse_quoted;
use crate::text::spec_parse_lit;
use crate::text::spec_parse_quoted;
use crate::text::str_lt;

verus! {

/// Everything the helper reported: the remote, a user-level token valid
/// across organizations, and one token per organization.
#[derive(Debug, Clone)]
pub struct CliAccessTokens {
    pub remote: String,
    pub user_access_token: String,
    pub org_access_tokens: Vec<(String, String)>,
}

/// The mathematical shadow of [`CliAccessTokens`].
pub ghost struct CliAccessTokensView {
    pub remote: Seq<char>,
    pub user_access_token: Seq<char>,
    pub org_access_tokens: Seq<(Seq<char>, Seq<char>)>,
}

/// The organization map, entry by entry, as character sequences.
pub open spec fn orgs_view(s: Seq<(String, String)>) -> Seq<(Seq<char>, Seq<char>)> {
    s.map_values(|p: (String, String)| (p.0@, p.1@))
}

impl View for CliAccessTokens {
    type V = CliAccessTokensView;

    open spec fn view(&self) -> CliAccessTokensView {
        CliAccessTokensView {
            remote: self.remote@,
            user_access_token: self.user_access_token@,
            org_access_tokens: orgs_view(self.org_access_tokens@),
        }
    }
}

pub open spec fn cli_result_view(r: Result<CliAccessTokens, InfinyonCredentialError>) -> Result<
    CliAccessTokensView,
    ErrorView,
> {
    match r {
        Ok(t) => Ok(t@),
        Err(e) => Err(e@),
    }
}

// ---------------------------------------------------------------------------
// Parsing the helper's document.
// ---------------------------------------------------------------------------
/// Consumes the entries of the organization map up to and beyond its closing
/// brace: either `}` at once, or `"k":"v"` entries separated by commas and
/// then `}`. The length guard on the recursive call always holds when the
/// preceding entry was consumed; it only bounds the recursion.
pub open spec fn spec_parse_orgs(s: Seq<char>) -> Option<(Seq<(Seq<char>, Seq<char>)>, Seq<char>)>
    decreases s.len(),
{
    if s.len() == 0 {
        None
    } else if s[0] == '}' {
        Some((Seq::empty(), s.skip(1)))
    } else if s[0] == '"' {
        match spec_parse_quoted(s.skip(1)) {
            None => None,
            Some((k, r1)) => match spec_parse_lit(r1, ":\""@) {
                None => None,
                Some(r2) => match spec_parse_quoted(r2) {
                    None => None,
                    Some((v, r3)) => if r3.len() == 0 {
                        None
                    } else if r3[0] == '}' {
                        Some((seq![(k, v)], r3.skip(1)))
                    } else if r3[0] == ',' {
                        if r3.skip(1).len() < s.len() {
                            match spec_parse_orgs(r3.skip(1)) {
                                None => None,
                                Some((es, r5)) => if es.len() > 0 {
                                    Some((seq![(k, v)] + es, r5))
                                } else {
                                    None
                                },
                            }
                        } else {
                            None
                        }
                    } else {
                        None
                    },
                },
            },
        }
    } else {
        None
    }
}

/// The whole document: the three fields in order, and nothing after them.
pub open spec fn spec_parse_cli_access_tokens(s: Seq<char>) -> Option<CliAccessTokensView> {
    match spec_parse_lit(s, "{\"remote\":\""@) {
        None => None,
        Some(r1) => match spec_parse_quoted(r1) {
            None => None,
            Some((remote, r2)) => match spec_parse_lit(r2, ",\"user_access_token\":\""@) {
                None => None,
                Some(r3) => match spec_parse_quoted(r3) {
                    None => None,
                    Some((user_access_token, r4)) => match spec_parse_lit(
                        r4,
                        ",\"org_access_tokens\":{"@,
                    ) {
                        None => None,
                        Some(r5) => match spec_parse_orgs(r5) {
                            None => None,
                            Some((org_access_tokens, r6)) => match spec_parse_lit(r6, "}"@) {
                                None => None,
                                Some(r7) => if r7.len() == 0 {
                                    Some(
                                        CliAccessTokensView {
                                            remote,
                                            user_access_token,
                                            org_access_tokens,
                                        },
                                    )
                                } else {
                                    None
                                },
                            },
                        },
                    },
                },
            },
        },
    }
}

fn parse_orgs<'a>(s: &'a str) -> (r: Option<(Vec<(String, String)>, &'a str)>)
    ensures
        match r {
            Some(p) => spec_parse_orgs(s@) == Some((orgs_view(p.0@), p.1@)),
            None => spec_parse_orgs(s@) is None,
        },
    decreases s@.len(),
{
    let slen = s.unicode_len();
    if slen == 0 {
        None
    } else {
        let c0 = s.get_char(0);
        if c0 == '}' {
            let rest = s.substring_char(1, slen);
            let out: Vec<(String, String)> = Vec::new();
            proof {
                assert(s@.subrange(1, slen as int) =~= s@.skip(1));
                assert(orgs_view(out@) =~= Seq::<(Seq<char>, Seq<char>)>::empty());
            }
            Some((out, rest))
        } else if c0 == '"' {
            proof {
                assert(s@.subrange(1, slen as int) =~= s@.skip(1));
            }
            match parse_quoted(s.substring_char(1, slen)) {
                None => None,
                Some((k, r1)) => match parse_lit(r1, ":\"") {
                    None => None,
                    Some(r2) => match parse_quoted(r2) {
                        None => None,
                        Some((v, r3)) => {
                            let r3len = r3.unicode_len();
                            if r3len == 0 {
                                None
                            } else {
                                let c3 = r3.get_char(0);
                                if c3 == '}' {
                                    let rest = r3.substring_char(1, r3len);
                                    let mut out: Vec<(String, String)> = Vec::new();
                                    out.push((k, v));
                                    proof {
                                        assert(r3@.subrange(1, r3len as int) =~= r3@.skip(1));
                                        assert(orgs_view(out@) =~= seq![(out@[0].0@, out@[0].1@)]);
                                    }
                                    Some((out, rest))
                                } else if c3 == ',' {
                                    let r4 = r3.substring_char(1, r3len);
                                    proof {
                                        assert(r3@.subrange(1, r3len as int) =~= r3@.skip(1));
                                    }
                                    if r4.unicode_len() < slen {
                                        match parse_orgs(r4) {
                                            None => None,
                                            Some((es, r5)) => if es.len() > 0 {
                                                let ghost kk = k@;
                                                let ghost vv = v@;
                                                let ghost tail = es@;
                                                let mut entries = es;
                                                entries.insert(0, (k, v));
                                                proof {
                                                    assert(orgs_view(entries@) =~= seq![(kk, vv)]
                                                        + orgs_view(tail));
                                                }
                                                Some((entries, r5))
                                            } else {
                                                None
                                            },
                                        }
                                    } else {
                                        None
                                    }
                                } else {
                                    None
                                }
                            }
                        },
                    },
                },
            }
        } else {
            None
        }
    }
}

// ---------------------------------------------------------------------------
// The current organization token: the entry whose organization identifier
// comes first in lexicographic order; on equal identifiers, the earlier entry.
// ---------------------------------------------------------------------------
pub open spec fn spec_min_org(entries: Seq<(Seq<char>, Seq<char>)>) -> (Seq<char>, Seq<char>)
    decreases entries.len(),
{
    if entries.len() <= 1 {
        entries[0]
    } else {
        let rest = spec_min_org(entries.skip(1));
        if lex_le(entries[0].0, rest.0) {
            entries[0]
        } else {
            rest
        }
    }
}

fn min_org_from(v: &Vec<(String, String)>, i: usize) -> (r: (String, String))
    requires
        i < v.len(),
    ensures
        (r.0@, r.1@) == spec_min_org(orgs_view(v@).skip(i as int)),
    decreases v.len() - i,
{
    if i + 1 >= v.len() {
        let r = (v[i].0.clone(), v[i].1.clone());
        proof {
            assert(orgs_view(v@).skip(i as int) =~= seq![(v@[i as int].0@, v@[i as int].1@)]);
        }
        r
    } else {
        let m = min_org_from(v, i + 1);
        let eq: bool = v[i].0 == m.0;
        let lt: bool = str_lt(v[i].0.as_str(), m.0.as_str());
        proof {
            assert(orgs_view(v@).skip(i as int).skip(1) =~= orgs_view(v@).skip(i + 1 as int));
            assert(orgs_view(v@).skip(i as int)[0] == (v@[i as int].0@, v@[i as int].1@));
        }
        if eq || lt {
            (v[i].0.clone(), v[i].1.clone())
        } else {
            m
        }
    }
}

impl CliAccessTokens {
    /// Parses the helper's standard output.
    pub fn parse(s: &str) -> (r: Result<CliAccessTokens, InfinyonCredentialError>)
        ensures
            match spec_parse_cli_access_tokens(s@) {
                Some(tv) => r matches Ok(t) && t@ == tv,
                None => r matches Err(e) && e@ == ErrorView::UnableToParseCredentials,
            },
    {
        match parse_lit(s, "{\"remote\":\"") {
            None => Err(InfinyonCredentialError::UnableToParseCredentials),
            Some(r1) => match parse_quoted(r1) {
                None => Err(InfinyonCredentialError::UnableToParseCredentials),
                Some((remote, r2)) => match parse_lit(r2, ",\"user_access_token\":\"") {
                    None => Err(InfinyonCredentialError::UnableToParseCredentials),
                    Some(r3) => match parse_quoted(r3) {
                        None => Err(InfinyonCredentialError::UnableToParseCredentials),
                        Some((user_access_token, r4)) => match parse_lit(
                            r4,
                            ",\"org_access_tokens\":{",
                        ) {
                            None => Err(InfinyonCredentialError::UnableToParseCredentials),
                            Some(r5) => match parse_orgs(r5) {
                                None => Err(InfinyonCredentialError::UnableToParseCredentials),
                                Some((org_access_tokens, r6)) => match parse_lit(r6, "}") {
                                    None => Err(
                                        InfinyonCredentialError::UnableToParseCredentials,
                                    ),
                                    Some(r7) => if r7.unicode_len() == 0 {
                                        Ok(
                                            CliAccessTokens {
                                                remote,
                                                user_access_token,
                                                org_access_tokens,
                                            },
                                        )
                                    } else {
                                        Err(InfinyonCredentialError::UnableToParseCredentials)
                                    },
                                },
                            },
                        },
                    },
                },
            },
        }
    }

    /// The token of the lexicographically first organization. The caller must
    /// know that at least one organization is present; [`Self::current_org_token`]
    /// is the checked form.
    pub fn get_current_org_token(&self) -> (t: String)
        requires
            self@.org_access_tokens.len() > 0,
        ensures
            t@ == spec_min_org(self@.org_access_tokens).1,
    {
        let r = min_org_from(&self.org_access_tokens, 0);
        proof {
            assert(orgs_view(self.org_access_tokens@).skip(0) =~= orgs_view(
                self.org_access_tokens@,
            ));
        }
        r.1
    }

    /// The token of the lexicographically first organization, or the fatal
    /// `NoOrganization` failure when the identity belongs to none.
    pub fn current_org_token(&self) -> (r: Result<String, InfinyonCredentialError>)
        ensures
            match r {
                Ok(t) => self@.org_access_tokens.len() > 0 && t@ == spec_min_org(
                    self@.org_access_tokens,
                ).1,
                Err(e) => self@.org_access_tokens.len() == 0 && e@ == ErrorView::NoOrganization,
            },
    {
        if self.org_access_tokens.len() == 0 {
            Err(InfinyonCredentialError::NoOrganization)
        } else {
            Ok(self.get_current_org_token())
        }
    }
}

/// With exactly one organization present, the current organization token is
/// that organization's token.
pub proof fn lemma_single_org_token(entries: Seq<(Seq<char>, Seq<char>)>)
    requires
        entries.len() == 1,
    ensures
        spec_min_org(entries) == entries[0],
{
}

/// The outcome of consulting the external helper, given what its invocation
/// produced on standard output (`None`: the helper could not be executed).
pub open spec fn spec_read_access_tokens(helper_stdout: Option<Seq<char>>) -> Result<
    CliAccessTokensView,
    ErrorView,
> {
    match helper_stdout {
        None => Err(ErrorView::Read(spec_helper_failed_message())),
        Some(out) => match spec_parse_cli_access_tokens(out) {
            Some(t) => Ok(t),
            None => Err(ErrorView::UnableToParseCredentials),
        },
    }
}

/// Interprets the helper invocation: a helper that could not run is a `Read`
/// failure, output that does not parse is an `UnableToParseCredentials`
/// failure, and well-formed output is the full token set.
pub fn read_access_tokens(helper_stdout: Option<String>) -> (r: Result<
    CliAccessTokens,
    InfinyonCredentialError,
>)
    ensures
        cli_result_view(r) == spec_read_access_tokens(
            match helper_stdout {
                Some(s) => Some(s@),
                None => None,
            },
        ),
{
    match helper_stdout {
        None => Err(InfinyonCredentialError::Read(String::from_str("failed to execute v4"))),
        Some(out) => CliAccessTokens::parse(out.as_str()),
    }
}

} // verus!
